//! The report on groups of codepoints that accompanies prepared tables.
use vstd::prelude::*;
use vstd::string::*;

verus! {

/// The texts of `items`, one after the other.
pub open spec fn joined(items: Seq<String>) -> Seq<char>
    decreases items.len(),
{
    if items.len() == 0 {
        seq![]
    } else {
        joined(items.drop_last()) + items.last()@
    }
}

/// The text of one group: its name, an empty line, its members one after
/// the other, a space and the end of the line.
pub open spec fn group_text(name: Seq<char>, members: Seq<String>) -> Seq<char> {
    name + seq!['\n', '\n'] + joined(members) + seq![' ', '\n']
}

/// The texts of the groups, in the order given.
pub open spec fn groups_text(names: Seq<String>, members: Seq<Vec<String>>) -> Seq<char>
    decreases names.len(),
{
    if names.len() == 0 || members.len() == 0 {
        seq![]
    } else {
        groups_text(names.drop_last(), members.drop_last()) + group_text(
            names.last()@,
            members.last()@,
        )
    }
}

/// Appends the texts of `items`, one after the other.
fn append_joined(output: &mut String, items: &Vec<String>)
    ensures
        final(output)@ == old(output)@ + joined(items@),
{
    let n = items.len();
    let mut i: usize = 0;
    proof {
        assert(items@.subrange(0, 0) =~= Seq::<String>::empty());
        assert(old(output)@ + joined(items@.subrange(0, 0)) =~= old(output)@);
    }
    while i < n
        invariant
            i <= n,
            n == items@.len(),
            output@ == old(output)@ + joined(items@.subrange(0, i as int)),
        decreases n - i,
    {
        output.push_str(items[i].as_str());
        proof {
            let done = items@.subrange(0, i as int);
            let more = items@.subrange(0, i + 1);
            assert(more.drop_last() =~= done);
            assert(more.last() == items@[i as int]);
            assert(old(output)@ + joined(done) + items@[i as int]@ =~= old(output)@ + (joined(done)
                + items@[i as int]@));
        }
        i = i + 1;
    }
    proof {
        assert(items@.subrange(0, n as int) =~= items@);
    }
}

/// The groups of codepoints as text: every group, in the order given, as
/// its name, an empty line, its members one after the other, a space and
/// the end of the line.
pub fn format_codepoint_groups(names: &Vec<String>, members: &Vec<Vec<String>>) -> (output: String)
    requires
        names@.len() == members@.len(),
    ensures
        output@ == groups_text(names@, members@),
{
    let mut output = String::new();
    let n = names.len();
    let mut i: usize = 0;
    proof {
        assert(names@.subrange(0, 0) =~= Seq::<String>::empty());
    }
    while i < n
        invariant
            i <= n,
            n == names@.len(),
            n == members@.len(),
            output@ == groups_text(names@.subrange(0, i as int), members@.subrange(0, i as int)),
        decreases n - i,
    {
        let ghost before = output@;
        output.push_str(names[i].as_str());
        output.push('\n');
        output.push('\n');
        append_joined(&mut output, &members[i]);
        output.push(' ');
        output.push('\n');
        proof {
            let some_names = names@.subrange(0, i + 1);
            let some_members = members@.subrange(0, i + 1);
            assert(some_names.drop_last() =~= names@.subrange(0, i as int));
            assert(some_members.drop_last() =~= members@.subrange(0, i as int));
            assert(some_names.last() == names@[i as int]);
            assert(some_members.last() == members@[i as int]);
            assert(output@ =~= before + group_text(names@[i as int]@, members@[i as int]@));
        }
        i = i + 1;
    }
    proof {
        assert(names@.subrange(0, n as int) =~= names@);
        assert(members@.subrange(0, n as int) =~= members@);
    }
    output
}

} // verus!
