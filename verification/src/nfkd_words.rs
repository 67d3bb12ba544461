//! The baked NFKD tables. The page index is stored as packed runs, the
//! descriptor words as packed streams; both are unfolded when a normalizer
//! is made.
use vstd::prelude::*;
use crate::data::expand;
use crate::data::expand_into;
use crate::data::extend_from;
use crate::data::unfold_runs;
use crate::data::unfold_runs_into;
use crate::data::DecompositionData;
use crate::model::Tables;
use crate::normalizer::DecomposingNormalizer;

verus! {

/// Packed runs of the page index.
pub const NFKD_INDEX_00: [u32; 202] = [
    1, 0x10001, 0x20001, 0x30001, 0x40001, 0x50001, 0x60001, 0x70001, 0x80001, 0x90001, 0xA0001,
    0xB0001, 0xC0001, 0xD0001, 0xE0001, 0xF0001, 0x100001, 0x110001, 0x120001, 0x130001, 0x140001,
    0x150001, 0x160001, 0x170001, 0x180001, 0x190001, 0x1A0001, 0x1B0001, 0x1C0001, 0x1D0001,
    0x1E0001, 0x1F0001, 0x200001, 0x210001, 4, 0x220001, 7, 0x230001, 0x240001, 1, 0x250001,
    0x260001, 1, 0x270001, 0x280001, 0x290001, 0x2A0001, 0x2B0001, 0x2C0001, 0x2D0001, 0x2E0001,
    0x2F0001, 0x300001, 0x310001, 0x320001, 0x330001, 0x340001, 0x350001, 0x360001, 0x370001,
    0x380001, 0x390001, 1, 0x3A0001, 0x3B0001, 0xA, 0x3C0001, 0x3D0001, 2, 0x3E0001, 0x3F0001,
    0x400001, 0x410001, 1, 0x420001, 0x430001, 0x440001, 0x450001, 0x460001, 0x470001, 0x480001,
    0x490001, 0x4A0001, 0x4B0001, 0x4C0001, 0xE4, 0x4D0001, 0x4E0001, 0x4F0001, 0x500001, 0x510001,
    0x520001, 0x530001, 0x540001, 1, 0x550001, 0x560001, 0x570001, 0x580057, 0x590001, 0x42,
    0x5A0001, 0x5B0001, 0x5C0001, 0x5D0001, 0x5E0001, 0x5F0001, 0x600001, 0x610001, 0x620001,
    0x630001, 0x640001, 0x650001, 0x660001, 0x670001, 3, 0x680001, 1, 0x690001, 0x6A0001, 8,
    0x6B0001, 4, 0x6C0001, 0x6D0001, 4, 0x6E0001, 2, 0x6F0001, 0x700001, 0x710001, 0x720001,
    0x730001, 0x740001, 0x750001, 0x760001, 0x770001, 0x780001, 1, 0x790001, 0x7A0001, 1, 0x7B0001,
    0x7C0001, 0x7D0001, 0x7E0001, 1, 0x7F0001, 1, 0x800001, 0x810001, 0x820001, 0x830001, 2,
    0x840001, 1, 0x850001, 0x860001, 0x99, 0x870001, 0x880001, 8, 0x890001, 0x99, 0x8A0001, 0x28,
    0x8B0001, 0x8C0001, 0x8D0001, 3, 0x8E0001, 0x8F0001, 0x900001, 0x910001, 0x920001, 0x930001,
    0x940001, 0x950001, 0x10, 0x960001, 1, 0x970001, 2, 0x980001, 0xB, 0x990001, 0x9A0001, 9,
    0x9B0001, 0x9C0001, 4, 0x9D0001, 0x9E0001, 0x9F0001, 0x12, 0xA00001, 0x1F8, 0xA10001, 0xA20001,
    0xA30001, 0xA40001, 0xA50001,
];

/// A packed stream of descriptor words.
pub const NFKD_DATA_00: [u64; 999] = [
    0xA00001, 0x200003, 0x70003, 0x308E600002002, 0, 0x610003, 0x400D1, 0x304E600002002, 0, 0,
    0x320003, 0x330003, 0x301E600002002, 0x3BC0003, 0, 0, 0x327CA00002002, 0x310003, 0x6F0003, 0,
    0x34002044000031, 0x32002044000031, 0x34002044000033, 0, 0x300E600004102, 0x301E600004102,
    0x302E600004102, 0x303E600004102, 0x308E600004102, 0x30AE600004102, 0, 0x327CA00004302,
    0x300E600004502, 0x301E600004502, 0x302E600004502, 0x308E600004502, 0x300E600004902,
    0x301E600004902, 0x302E600004902, 0x308E600004902, 0, 0x303E600004E02, 0x300E600004F02,
    0x301E600004F02, 0x302E600004F02, 0x303E600004F02, 0x308E600004F02, 0, 0, 0x300E600005502,
    0x301E600005502, 0x302E600005502, 0x308E600005502, 0x301E600005902, 0, 0, 0x300E600006102,
    0x301E600006102, 0x302E600006102, 0x303E600006102, 0x308E600006102, 0x30AE600006102, 0,
    0x327CA00006302, 0x300E600006502, 0x301E600006502, 0x302E600006502, 0x308E600006502,
    0x300E600006902, 0x301E600006902, 0x302E600006902, 0x308E600006902, 0, 0x303E600006E02,
    0x300E600006F02, 0x301E600006F02, 0x302E600006F02, 0x303E600006F02, 0x308E600006F02, 0, 0,
    0x300E600007502, 0x301E600007502, 0x302E600007502, 0x308E600007502, 0x301E600007902, 0,
    0x308E600007902, 0x304E600004102, 0x304E600006102, 0x306E600004102, 0x306E600006102,
    0x328CA00004102, 0x328CA00006102, 0x301E600004302, 0x301E600006302, 0x302E600004302,
    0x302E600006302, 0x307E600004302, 0x307E600006302, 0x30CE600004302, 0x30CE600006302,
    0x30CE600004402, 0x30CE600006402, 0, 0, 0x304E600004502, 0x304E600006502, 0x306E600004502,
    0x306E600006502, 0x307E600004502, 0x307E600006502, 0x328CA00004502, 0x328CA00006502,
    0x30CE600004502, 0x30CE600006502, 0x302E600004702, 0x302E600006702, 0x306E600004702,
    0x306E600006702, 0x307E600004702, 0x307E600006702, 0x327CA00004702, 0x327CA00006702,
    0x302E600004802, 0x302E600006802, 0, 0, 0x303E600004902, 0x303E600006902, 0x304E600004902,
    0x304E600006902, 0x306E600004902, 0x306E600006902, 0x328CA00004902, 0x328CA00006902,
    0x307E600004902, 0, 0x4A0000004902, 0x6A0000006902, 0x302E600004A02, 0x302E600006A02,
    0x327CA00004B02, 0x327CA00006B02, 0, 0x301E600004C02, 0x301E600006C02, 0x327CA00004C02,
    0x327CA00006C02, 0x30CE600004C02, 0x30CE600006C02, 0xB70000004C02, 0xB70000006C02, 0, 0,
    0x301E600004E02, 0x301E600006E02, 0x327CA00004E02, 0x327CA00006E02, 0x30CE600004E02,
    0x30CE600006E02, 0x6E000002BC02, 0, 0, 0x304E600004F02, 0x304E600006F02, 0x306E600004F02,
    0x306E600006F02, 0x30BE600004F02, 0x30BE600006F02, 0, 0, 0x301E600005202, 0x301E600007202,
    0x327CA00005202, 0x327CA00007202, 0x30CE600005202, 0x30CE600007202, 0x301E600005302,
    0x301E600007302, 0x302E600005302, 0x302E600007302, 0x327CA00005302, 0x327CA00007302,
    0x30CE600005302, 0x30CE600007302, 0x327CA00005402, 0x327CA00007402, 0x30CE600005402,
    0x30CE600007402, 0, 0, 0x303E600005502, 0x303E600007502, 0x304E600005502, 0x304E600007502,
    0x306E600005502, 0x306E600007502, 0x30AE600005502, 0x30AE600007502, 0x30BE600005502,
    0x30BE600007502, 0x328CA00005502, 0x328CA00007502, 0x302E600005702, 0x302E600007702,
    0x302E600005902, 0x302E600007902, 0x308E600005902, 0x301E600005A02, 0x301E600007A02,
    0x307E600005A02, 0x307E600007A02, 0x30CE600005A02, 0x30CE600007A02, 0x730003, 0x200002,
    0x31BD800004F02, 0x31BD800006F02, 0xD0002, 0x31BD800005502, 0x31BD800007502, 0x13005C,
    0x30CE6005A000044, 0x30CE6007A000044, 0x30CE6007A000064, 0x4A0000004C02, 0x6A0000004C02,
    0x6A0000006C02, 0x4A0000004E02, 0x6A0000004E02, 0x6A0000006E02, 0x30CE600004102,
    0x30CE600006102, 0x30CE600004902, 0x30CE600006902, 0x30CE600004F02, 0x30CE600006F02,
    0x30CE600005502, 0x30CE600007502, 0x304E60308E60055, 0x304E60308E60075, 0x301E60308E60055,
    0x301E60308E60075, 0x30CE60308E60055, 0x30CE60308E60075, 0x300E60308E60055, 0x300E60308E60075,
    0, 0x304E60308E60041, 0x304E60308E60061, 0x304E60307E60041, 0x304E60307E60061, 0x304E60000C602,
    0x304E60000E602, 0, 0, 0x30CE600004702, 0x30CE600006702, 0x30CE600004B02, 0x30CE600006B02,
    0x328CA00004F02, 0x328CA00006F02, 0x304E60328CA004F, 0x304E60328CA006F, 0x30CE60001B702,
    0x30CE600029202, 0x30CE600006A02, 0x5A0000004402, 0x7A0000004402, 0x7A0000006402,
    0x301E600004702, 0x301E600006702, 0, 0, 0x300E600004E02, 0x300E600006E02, 0x301E6030AE60041,
    0x301E6030AE60061, 0x301E60000C602, 0x301E60000E602, 0x301E60000D802, 0x301E60000F802,
    0x30FE600004102, 0x30FE600006102, 0x311E600004102, 0x311E600006102, 0x30FE600004502,
    0x30FE600006502, 0x311E600004502, 0x311E600006502, 0x30FE600004902, 0x30FE600006902,
    0x311E600004902, 0x311E600006902, 0x30FE600004F02, 0x30FE600006F02, 0x311E600004F02,
    0x311E600006F02, 0x30FE600005202, 0x30FE600007202, 0x311E600005202, 0x311E600007202,
    0x30FE600005502, 0x30FE600007502, 0x311E600005502, 0x311E600007502, 0x326DC00005302,
    0x326DC00007302, 0x326DC00005402, 0x326DC00007402, 0, 0, 0x30CE600004802, 0x30CE600006802,
    0x6000E, 0x307E600004102, 0x307E600006102, 0x327CA00004502, 0x327CA00006502, 0x304E60308E6004F,
    0x304E60308E6006F, 0x304E60303E6004F, 0x304E60303E6006F, 0x307E600004F02, 0x307E600006F02,
    0x304E60307E6004F, 0x304E60307E6006F, 0x304E600005902, 0x304E600007902, 0x7C0009, 0x680003,
    0x2660003, 0x6A0003, 0x720003, 0x2790003, 0x27B0003, 0x2810003, 0x770003, 0x790003, 0x1F000D,
    0x306E600002002, 0x307E600002002, 0x30AE600002002, 0x328CA00002002, 0x303E600002002,
    0x30BE600002002, 0, 0, 0x2630003, 0x6C0003, 0x730003, 0x780003, 0x2950003, 0x1B0070, 0x300E601,
    0x301E601, 0x302E601, 0x303E601, 0x304E601, 0x305E601, 0x306E601, 0x307E601, 0x308E601,
    0x309E601, 0x30AE601, 0x30BE601, 0x30CE601, 0x30DE601, 0x30EE601, 0x30FE601, 0x310E601,
    0x311E601, 0x312E601, 0x313E601, 0x314E601, 0x315E801, 0x316DC01, 0x317DC01, 0x318DC01,
    0x319DC01, 0x31AE801, 0x31BD801, 0x31CDC01, 0x31DDC01, 0x31EDC01, 0x31FDC01, 0x320DC01,
    0x321CA01, 0x322CA01, 0x323DC01, 0x324DC01, 0x325DC01, 0x326DC01, 0x327CA01, 0x328CA01,
    0x329DC01, 0x32ADC01, 0x32BDC01, 0x32CDC01, 0x32DDC01, 0x32EDC01, 0x32FDC01, 0x330DC01,
    0x331DC01, 0x332DC01, 0x333DC01, 0x3340101, 0x3350101, 0x3360101, 0x3370101, 0x3380101,
    0x339DC01, 0x33ADC01, 0x33BDC01, 0x33CDC01, 0x33DE601, 0x33EE601, 0x33FE601, 0x104, 0x10104,
    0x342E601, 0x20104, 0x30204, 0x345F001, 0x346E601, 0x347DC01, 0x348DC01, 0x349DC01, 0x34AE601,
    0x34BE601, 0x34CE601, 0x34DDC01, 0x34EDC01, 0, 0x350E601, 0x351E601, 0x352E601, 0x353DC01,
    0x354DC01, 0x355DC01, 0x356DC01, 0x357E601, 0x358E801, 0x359DC01, 0x35ADC01, 0x35BE601,
    0x35CE901, 0x35DEA01, 0x35EEA01, 0x35FE901, 0x360EA01, 0x361EA01, 0x362E901, 0x363E601,
    0x364E601, 0x365E601, 0x366E601, 0x367E601, 0x368E601, 0x369E601, 0x36AE601, 0x36BE601,
    0x36CE601, 0x36DE601, 0x36EE601, 0x36FE601, 0x40001, 0x2B90003, 0x50005, 0x345F000002002, 0, 0,
    0, 0x3B0003, 0x5000D, 0x301E600002002, 0x301E60308E60020, 0x301E600039102, 0xB70003,
    0x301E600039502, 0x301E600039702, 0x301E600039902, 0, 0x301E600039F02, 0, 0x301E60003A502,
    0x301E60003A902, 0x301E60308E603B9, 0x190007, 0x308E600039902, 0x308E60003A502, 0x301E60003B102,
    0x301E60003B502, 0x301E60003B702, 0x301E60003B902, 0x301E60308E603C5, 0x19000D, 0x308E60003B902,
    0x308E60003C502, 0x301E60003BF02, 0x301E60003C502, 0x301E60003C902, 0, 0x3B20003, 0x3B80003,
    0x3A50003, 0x301E60003A502, 0x308E60003A502, 0x3C60003, 0x3C00003, 0x19000A, 0x3BA0003,
    0x3C10003, 0x3C20003, 0, 0x3980003, 0x3B50003, 0, 0, 0, 0x3A30003, 0x60008, 0x300E600041502,
    0x308E600041502, 0, 0x301E600041302, 0, 0, 0, 0x308E600040602, 0x40003, 0x301E600041A02,
    0x300E600041802, 0x306E600042302, 0xA0001, 0x306E600041802, 0x1F0001, 0x306E600043802, 0x160008,
    0x300E600043502, 0x308E600043502, 0, 0x301E600043302, 0, 0, 0, 0x308E600045602, 0x40003,
    0x301E600043A02, 0x300E600043802, 0x306E600044302, 0x170002, 0x30FE600047402, 0x30FE600047502,
    0xB0005, 0x483E601, 0x484E601, 0x485E601, 0x486E601, 0x487E601, 0x390002, 0x306E600041602,
    0x306E600043602, 0xD002A, 0x306E600041002, 0x306E600043002, 0x308E600041002, 0x308E600043002, 0,
    0, 0x306E600041502, 0x306E600043502, 0, 0, 0x308E60004D802, 0x308E60004D902, 0x308E600041602,
    0x308E600043602, 0x308E600041702, 0x308E600043702, 0, 0, 0x304E600041802, 0x304E600043802,
    0x308E600041802, 0x308E600043802, 0x308E600041E02, 0x308E600043E02, 0, 0, 0x308E60004E802,
    0x308E60004E902, 0x308E600042D02, 0x308E600044D02, 0x304E600042302, 0x304E600044302,
    0x308E600042302, 0x308E600044302, 0x30BE600042302, 0x30BE600044302, 0x308E600042702,
    0x308E600044702, 0, 0, 0x308E600042B02, 0x308E600044B02, 0x8D0001, 0x5820000056502, 0x90037,
    0x591DC01, 0x592E601, 0x593E601, 0x594E601, 0x595E601, 0x596DC01, 0x597E601, 0x598E601,
    0x599E601, 0x59ADE01, 0x59BDC01, 0x59CE601, 0x59DE601, 0x59EE601, 0x59FE601, 0x5A0E601,
    0x5A1E601, 0x5A2DC01, 0x5A3DC01, 0x5A4DC01, 0x5A5DC01, 0x5A6DC01, 0x5A7DC01, 0x5A8E601,
    0x5A9E601, 0x5AADC01, 0x5ABE601, 0x5ACE601, 0x5ADDE01, 0x5AEE401, 0x5AFE601, 0x5B00A01,
    0x5B10B01, 0x5B20C01, 0x5B30D01, 0x5B40E01, 0x5B50F01, 0x5B61001, 0x5B71101, 0x5B81201,
    0x5B91301, 0x5BA1301, 0x5BB1401, 0x5BC1501, 0x5BD1601, 0, 0x5BF1701, 0, 0x5C11801, 0x5C21901, 0,
    0x5C4E601, 0x5C5DC01, 0, 0x5C71201, 0x48000B, 0x610E601, 0x611E601, 0x612E601, 0x613E601,
    0x614E601, 0x615E601, 0x616E601, 0x617E601, 0x6181E01, 0x6191F01, 0x61A2001, 0x70005,
    0x653E600062702, 0x654E600062702, 0x654E600064802, 0x655DC00062702, 0x654E600064A02, 0x240015,
    0x64B1B01, 0x64C1C01, 0x64D1D01, 0x64E1E01, 0x64F1F01, 0x6502001, 0x6512101, 0x6522201,
    0x653E601, 0x654E601, 0x655DC01, 0x656DC01, 0x657E601, 0x658E601, 0x659E601, 0x65AE601,
    0x65BE601, 0x65CDC01, 0x65DE601, 0x65EE601, 0x65FDC01, 0x100001, 0x6702301, 0x40004,
    0x6740000062702, 0x6740000064802, 0x674000006C702, 0x6740000064A02, 0x470003, 0x654E60006D502,
    0, 0x654E60006C102, 0x10001B, 0x654E60006D202, 0, 0, 0x6D6E601, 0x6D7E601, 0x6D8E601, 0x6D9E601,
    0x6DAE601, 0x6DBE601, 0x6DCE601, 0, 0, 0x6DFE601, 0x6E0E601, 0x6E1E601, 0x6E2E601, 0x6E3DC01,
    0x6E4E601, 0, 0, 0x6E7E601, 0x6E8E601, 0, 0x6EADC01, 0x6EBE601, 0x6ECE601, 0x6EDDC01, 0x230001,
    0x7112401, 0x1E001B, 0x730E601, 0x731DC01, 0x732E601, 0x733E601, 0x734DC01, 0x735E601,
    0x736E601, 0x737DC01, 0x738DC01, 0x739DC01, 0x73AE601, 0x73BDC01, 0x73CDC01, 0x73DE601,
    0x73EDC01, 0x73FE601, 0x740E601, 0x741E601, 0x742DC01, 0x743E601, 0x744DC01, 0x745E601,
    0x746DC01, 0x747E601, 0x748DC01, 0x749E601, 0x74AE601, 0xA00009, 0x7EBE601, 0x7ECE601,
    0x7EDE601, 0x7EEE601, 0x7EFE601, 0x7F0E601, 0x7F1E601, 0x7F2DC01, 0x7F3E601, 0x90001, 0x7FDDC01,
    0x180018, 0x816E601, 0x817E601, 0x818E601, 0x819E601, 0, 0x81BE601, 0x81CE601, 0x81DE601,
    0x81EE601, 0x81FE601, 0x820E601, 0x821E601, 0x822E601, 0x823E601, 0, 0x825E601, 0x826E601,
    0x827E601, 0, 0x829E601, 0x82AE601, 0x82BE601, 0x82CE601, 0x82DE601, 0x2B0003, 0x859DC01,
    0x85ADC01, 0x85BDC01, 0x3C0008, 0x898E601, 0x899DC01, 0x89ADC01, 0x89BDC01, 0x89CE601,
    0x89DE601, 0x89EE601, 0x89FE601, 0x2A0036, 0x8CAE601, 0x8CBE601, 0x8CCE601, 0x8CDE601,
    0x8CEE601, 0x8CFDC01, 0x8D0DC01, 0x8D1DC01, 0x8D2DC01, 0x8D3DC01, 0x8D4E601, 0x8D5E601,
    0x8D6E601, 0x8D7E601, 0x8D8E601, 0x8D9E601, 0x8DAE601, 0x8DBE601, 0x8DCE601, 0x8DDE601,
    0x8DEE601, 0x8DFE601, 0x8E0E601, 0x8E1E601, 0, 0x8E3DC01, 0x8E4E601, 0x8E5E601, 0x8E6DC01,
    0x8E7E601, 0x8E8E601, 0x8E9DC01, 0x8EAE601, 0x8EBE601, 0x8ECE601, 0x8EDDC01, 0x8EEDC01,
    0x8EFDC01, 0x8F01B01, 0x8F11C01, 0x8F21D01, 0x8F3E601, 0x8F4E601, 0x8F5E601, 0x8F6DC01,
    0x8F7E601, 0x8F8E601, 0x8F9DC01, 0x8FADC01, 0x8FBE601, 0x8FCE601, 0x8FDE601, 0x8FEE601,
    0x8FFE601, 0x290001, 0x93C0700092802, 0x70004, 0x93C0700093002, 0, 0, 0x93C0700093302, 0x70001,
    0x93C0701, 0x100013, 0x94D0901, 0, 0, 0, 0x951E601, 0x952DC01, 0x953E601, 0x954E601, 0, 0, 0,
    0x93C0700091502, 0x93C0700091602, 0x93C0700091702, 0x93C0700091C02, 0x93C0700092102,
    0x93C0700092202, 0x93C0700092B02, 0x93C0700092F02, 0x5C0001, 0x9BC0701, 0xE0003,
    0x9BE000009C702, 0x9D7000009C702, 0x9CD0901, 0xE0004, 0x9BC070009A102, 0x9BC070009A202, 0,
    0x9BC070009AF02, 0x1E0001, 0x9FEE601, 0x340004, 0xA3C07000A3202, 0, 0, 0xA3C07000A3802, 0x50001,
    0xA3C0701, 0x100001, 0xA4D0901, 0xB0006, 0xA3C07000A1602, 0xA3C07000A1702, 0xA3C07000A1C02, 0,
    0, 0xA3C07000A2B02, 0x5D0001, 0xABC0701, 0x100001, 0xACD0901, 0x6E0001, 0xB3C0701, 0xB0006,
    0xB5600000B4702, 0, 0, 0xB3E00000B4702, 0xB5700000B4702, 0xB4D0901, 0xE0002, 0xB3C07000B2102,
    0xB3C07000B2202, 0x360001, 0xBD700000B9202, 0x350004, 0xBBE00000BC602, 0xBBE00000BC702,
    0xBD700000BC602, 0xBCD0901, 0x6E0001, 0xC3C0701, 0xB0001, 0xC565B000C4602, 0x40001, 0xC4D0901,
    0x70002, 0xC555401, 0xC565B01, 0x650005, 0xCBC0701, 0, 0, 0, 0xCD500000CBF02, 0x60007,
    0xCD500000CC602, 0xCD600000CC602, 0, 0xCC200000CC602, 0xCD5000CC2000CC6, 0, 0xCCD0901, 0x6D0002,
    0xD3B0901, 0xD3C0901, 0xD0004, 0xD3E00000D4602, 0xD3E00000D4702, 0xD5700000D4602, 0xD4D0901,
    0x7C0001, 0xDCA0901, 0xF0005, 0xDCA09000DD902, 0, 0xDCF00000DD902, 0xDCA090DCF000DD9,
    0xDDF00000DD902,
];

/// A packed stream of descriptor words.
pub const NFKD_DATA_01: [u64; 998] = [
    0x540001, 0xE3200000E4D02, 0x40003, 0xE386701, 0xE396701, 0xE3A0901, 0xD0004, 0xE486B01,
    0xE496B01, 0xE4A6B01, 0xE4B6B01, 0x670001, 0xEB200000ECD02, 0x40003, 0xEB87601, 0xEB97601,
    0xEBA0901, 0xD0004, 0xEC87A01, 0xEC97A01, 0xECA7A01, 0xECB7A01, 0x100002, 0xE9900000EAB02,
    0xEA100000EAB02, 0x2E0001, 0xF0B0003, 0xB0002, 0xF18DC01, 0xF19DC01, 0x1B0005, 0xF35DC01, 0,
    0xF37DC01, 0, 0xF39D801, 0x90001, 0xFB700000F4202, 0x90001, 0xFB700000F4C02, 0x40001,
    0xFB700000F5102, 0x40001, 0xFB700000F5602, 0x40001, 0xFB700000F5B02, 0xC0001, 0xFB500000F4002,
    0x70017, 0xF718101, 0xF728201, 0x50204, 0xF748401, 0x70204, 0xF8082000FB202, 0xF80820F71810FB2,
    0xF8082000FB302, 0xF80820F71810FB3, 0xF7A8201, 0xF7B8201, 0xF7C8201, 0xF7D8201, 0, 0, 0xF808201,
    0x90204, 0xF82E601, 0xF83E601, 0xF840901, 0, 0xF86E601, 0xF87E601, 0xB0001, 0xFB700000F9202,
    0x90001, 0xFB700000F9C02, 0x40001, 0xFB700000FA102, 0x40001, 0xFB700000FA602, 0x40001,
    0xFB700000FAB02, 0xC0001, 0xFB500000F9002, 0xC0001, 0xFC6DC01, 0x5F0001, 0x102E0000102502,
    0x100004, 0x10370701, 0, 0x10390901, 0x103A0901, 0x520001, 0x108DDC01, 0x6E0001, 0x10DC0003,
    0x600003, 0x135DE601, 0x135EE601, 0x135FE601, 0x340002, 0x17140901, 0x17150901, 0x1E0001,
    0x17340901, 0x9D0001, 0x17D20901, 0xA0001, 0x17DDE601, 0x4B0001, 0x18A9E401, 0x8F0003,
    0x1939DE01, 0x193AE601, 0x193BDC01, 0x5B0002, 0x1A17E601, 0x1A18DC01, 0x470001, 0x1A600901,
    0x14000B, 0x1A75E601, 0x1A76E601, 0x1A77E601, 0x1A78E601, 0x1A79E601, 0x1A7AE601, 0x1A7BE601,
    0x1A7CE601, 0, 0, 0x1A7FDC01, 0x30001F, 0x1AB0E601, 0x1AB1E601, 0x1AB2E601, 0x1AB3E601,
    0x1AB4E601, 0x1AB5DC01, 0x1AB6DC01, 0x1AB7DC01, 0x1AB8DC01, 0x1AB9DC01, 0x1ABADC01, 0x1ABBE601,
    0x1ABCE601, 0x1ABDDC01, 0, 0x1ABFDC01, 0x1AC0DC01, 0x1AC1E601, 0x1AC2E601, 0x1AC3DC01,
    0x1AC4DC01, 0x1AC5E601, 0x1AC6E601, 0x1AC7E601, 0x1AC8E601, 0x1AC9E601, 0x1ACADC01, 0x1ACBE601,
    0x1ACCE601, 0x1ACDE601, 0x1ACEE601, 0x37000D, 0x1B3500001B0502, 0, 0x1B3500001B0702, 0,
    0x1B3500001B0902, 0, 0x1B3500001B0B02, 0, 0x1B3500001B0D02, 0, 0, 0, 0x1B3500001B1102, 0x210001,
    0x1B340701, 0x6000A, 0x1B3500001B3A02, 0, 0x1B3500001B3C02, 0, 0, 0x1B3500001B3E02,
    0x1B3500001B3F02, 0, 0x1B3500001B4202, 0x1B440901, 0x260009, 0x1B6BE601, 0x1B6CDC01, 0x1B6DE601,
    0x1B6EE601, 0x1B6FE601, 0x1B70E601, 0x1B71E601, 0x1B72E601, 0x1B73E601, 0x360002, 0x1BAA0901,
    0x1BAB0901, 0x3A0001, 0x1BE60701, 0xB0002, 0x1BF20901, 0x1BF30901, 0x430001, 0x1C370701,
    0x980019, 0x1CD0E601, 0x1CD1E601, 0x1CD2E601, 0, 0x1CD40101, 0x1CD5DC01, 0x1CD6DC01, 0x1CD7DC01,
    0x1CD8DC01, 0x1CD9DC01, 0x1CDAE601, 0x1CDBE601, 0x1CDCDC01, 0x1CDDDC01, 0x1CDEDC01, 0x1CDFDC01,
    0x1CE0E601, 0, 0x1CE20101, 0x1CE30101, 0x1CE40101, 0x1CE50101, 0x1CE60101, 0x1CE70101,
    0x1CE80101, 0x40001, 0x1CEDDC01, 0x60006, 0x1CF4E601, 0, 0, 0, 0x1CF8E601, 0x1CF9E601, 0x32003F,
    0x410003, 0xC60003, 0x420003, 0, 0x440003, 0x450003, 0x18E0003, 0x470003, 0x480003, 0x490003,
    0x4A0003, 0x4B0003, 0x4C0003, 0x4D0003, 0x4E0003, 0, 0x4F0003, 0x2220003, 0x500003, 0x520003,
    0x540003, 0x550003, 0x570003, 0x610003, 0x2500003, 0x2510003, 0x1D020003, 0x620003, 0x640003,
    0x650003, 0x2590003, 0x25B0003, 0x25C0003, 0x670003, 0, 0x6B0003, 0x6D0003, 0x14B0003, 0x6F0003,
    0x2540003, 0x1D160003, 0x1D170003, 0x700003, 0x740003, 0x750003, 0x1D1D0003, 0x26F0003,
    0x760003, 0x1D250003, 0x3B20003, 0x3B30003, 0x3B40003, 0x3C60003, 0x3C70003, 0x690003, 0x720003,
    0x750003, 0x760003, 0x3B20003, 0x3B30003, 0x3C10003, 0x3C60003, 0x3C70003, 0xD0001, 0x43D0003,
    0x220101, 0x2520003, 0x630003, 0x2550003, 0xF00003, 0x25C0003, 0x660003, 0x25F0003, 0x2610003,
    0x2650003, 0x2680003, 0x2690003, 0x26A0003, 0x1D7B0003, 0x29D0003, 0x26D0003, 0x1D850003,
    0x29F0003, 0x2710003, 0x2700003, 0x2720003, 0x2730003, 0x2740003, 0x2750003, 0x2780003,
    0x2820003, 0x2830003, 0x1AB0003, 0x2890003, 0x28A0003, 0x1D1C0003, 0x28B0003, 0x28C0003,
    0x7A0003, 0x2900003, 0x2910003, 0x2920003, 0x3B80003, 0x1DC0E601, 0x1DC1E601, 0x1DC2DC01,
    0x1DC3E601, 0x1DC4E601, 0x1DC5E601, 0x1DC6E601, 0x1DC7E601, 0x1DC8E601, 0x1DC9E601, 0x1DCADC01,
    0x1DCBE601, 0x1DCCE601, 0x1DCDEA01, 0x1DCED601, 0x1DCFDC01, 0x1DD0CA01, 0x1DD1E601, 0x1DD2E601,
    0x1DD3E601, 0x1DD4E601, 0x1DD5E601, 0x1DD6E601, 0x1DD7E601, 0x1DD8E601, 0x1DD9E601, 0x1DDAE601,
    0x1DDBE601, 0x1DDCE601, 0x1DDDE601, 0x1DDEE601, 0x1DDFE601, 0x1DE0E601, 0x1DE1E601, 0x1DE2E601,
    0x1DE3E601, 0x1DE4E601, 0x1DE5E601, 0x1DE6E601, 0x1DE7E601, 0x1DE8E601, 0x1DE9E601, 0x1DEAE601,
    0x1DEBE601, 0x1DECE601, 0x1DEDE601, 0x1DEEE601, 0x1DEFE601, 0x1DF0E601, 0x1DF1E601, 0x1DF2E601,
    0x1DF3E601, 0x1DF4E601, 0x1DF5E601, 0x1DF6E801, 0x1DF7E401, 0x1DF8E401, 0x1DF9DC01, 0x1DFADA01,
    0x1DFBE601, 0x1DFCE901, 0x1DFDDC01, 0x1DFEE601, 0x1DFFDC01, 0x325DC00004102, 0x325DC00006102,
    0x307E600004202, 0x307E600006202, 0x323DC00004202, 0x323DC00006202, 0x331DC00004202,
    0x331DC00006202, 0x301E60327CA0043, 0x301E60327CA0063, 0x307E600004402, 0x307E600006402,
    0x323DC00004402, 0x323DC00006402, 0x331DC00004402, 0x331DC00006402, 0x327CA00004402,
    0x327CA00006402, 0x32DDC00004402, 0x32DDC00006402, 0x300E60304E60045, 0x300E60304E60065,
    0x301E60304E60045, 0x301E60304E60065, 0x32DDC00004502, 0x32DDC00006502, 0x330DC00004502,
    0x330DC00006502, 0x306E60327CA0045, 0x306E60327CA0065, 0x307E600004602, 0x307E600006602,
    0x304E600004702, 0x304E600006702, 0x307E600004802, 0x307E600006802, 0x323DC00004802,
    0x323DC00006802, 0x308E600004802, 0x308E600006802, 0x327CA00004802, 0x327CA00006802,
    0x32EDC00004802, 0x32EDC00006802, 0x330DC00004902, 0x330DC00006902, 0x301E60308E60049,
    0x301E60308E60069, 0x301E600004B02, 0x301E600006B02, 0x323DC00004B02, 0x323DC00006B02,
    0x331DC00004B02, 0x331DC00006B02, 0x323DC00004C02, 0x323DC00006C02, 0x304E60323DC004C,
    0x304E60323DC006C, 0x331DC00004C02, 0x331DC00006C02, 0x32DDC00004C02, 0x32DDC00006C02,
    0x301E600004D02, 0x301E600006D02, 0x307E600004D02, 0x307E600006D02, 0x323DC00004D02,
    0x323DC00006D02, 0x307E600004E02, 0x307E600006E02, 0x323DC00004E02, 0x323DC00006E02,
    0x331DC00004E02, 0x331DC00006E02, 0x32DDC00004E02, 0x32DDC00006E02, 0x301E60303E6004F,
    0x301E60303E6006F, 0x308E60303E6004F, 0x308E60303E6006F, 0x300E60304E6004F, 0x300E60304E6006F,
    0x301E60304E6004F, 0x301E60304E6006F, 0x301E600005002, 0x301E600007002, 0x307E600005002,
    0x307E600007002, 0x307E600005202, 0x307E600007202, 0x323DC00005202, 0x323DC00007202,
    0x304E60323DC0052, 0x304E60323DC0072, 0x331DC00005202, 0x331DC00007202, 0x307E600005302,
    0x307E600007302, 0x323DC00005302, 0x323DC00007302, 0x307E60301E60053, 0x307E60301E60073,
    0x307E6030CE60053, 0x307E6030CE60073, 0x307E60323DC0053, 0x307E60323DC0073, 0x307E600005402,
    0x307E600007402, 0x323DC00005402, 0x323DC00007402, 0x331DC00005402, 0x331DC00007402,
    0x32DDC00005402, 0x32DDC00007402, 0x324DC00005502, 0x324DC00007502, 0x330DC00005502,
    0x330DC00007502, 0x32DDC00005502, 0x32DDC00007502, 0x301E60303E60055, 0x301E60303E60075,
    0x308E60304E60055, 0x308E60304E60075, 0x303E600005602, 0x303E600007602, 0x323DC00005602,
    0x323DC00007602, 0x300E600005702, 0x300E600007702, 0x301E600005702, 0x301E600007702,
    0x308E600005702, 0x308E600007702, 0x307E600005702, 0x307E600007702, 0x323DC00005702,
    0x323DC00007702, 0x307E600005802, 0x307E600007802, 0x308E600005802, 0x308E600007802,
    0x307E600005902, 0x307E600007902, 0x302E600005A02, 0x302E600007A02, 0x323DC00005A02,
    0x323DC00007A02, 0x331DC00005A02, 0x331DC00007A02, 0x331DC00006802, 0x308E600007402,
    0x30AE600007702, 0x30AE600007902, 0x2BE0000006102, 0x307E600007302, 0x4005A, 0x323DC00004102,
    0x323DC00006102, 0x309E600004102, 0x309E600006102, 0x301E60302E60041, 0x301E60302E60061,
    0x300E60302E60041, 0x300E60302E60061, 0x309E60302E60041, 0x309E60302E60061, 0x303E60302E60041,
    0x303E60302E60061, 0x302E60323DC0041, 0x302E60323DC0061, 0x301E60306E60041, 0x301E60306E60061,
    0x300E60306E60041, 0x300E60306E60061, 0x309E60306E60041, 0x309E60306E60061, 0x303E60306E60041,
    0x303E60306E60061, 0x306E60323DC0041, 0x306E60323DC0061, 0x323DC00004502, 0x323DC00006502,
    0x309E600004502, 0x309E600006502, 0x303E600004502, 0x303E600006502, 0x301E60302E60045,
    0x301E60302E60065, 0x300E60302E60045, 0x300E60302E60065, 0x309E60302E60045, 0x309E60302E60065,
    0x303E60302E60045, 0x303E60302E60065, 0x302E60323DC0045, 0x302E60323DC0065, 0x309E600004902,
    0x309E600006902, 0x323DC00004902, 0x323DC00006902, 0x323DC00004F02, 0x323DC00006F02,
    0x309E600004F02, 0x309E600006F02, 0x301E60302E6004F, 0x301E60302E6006F, 0x300E60302E6004F,
    0x300E60302E6006F, 0x309E60302E6004F, 0x309E60302E6006F, 0x303E60302E6004F, 0x303E60302E6006F,
    0x302E60323DC004F, 0x302E60323DC006F, 0x301E6031BD8004F, 0x301E6031BD8006F, 0x300E6031BD8004F,
    0x300E6031BD8006F, 0x309E6031BD8004F, 0x309E6031BD8006F, 0x303E6031BD8004F, 0x303E6031BD8006F,
    0x323DC031BD8004F, 0x323DC031BD8006F, 0x323DC00005502, 0x323DC00007502, 0x309E600005502,
    0x309E600007502, 0x301E6031BD80055, 0x301E6031BD80075, 0x300E6031BD80055, 0x300E6031BD80075,
    0x309E6031BD80055, 0x309E6031BD80075, 0x303E6031BD80055, 0x303E6031BD80075, 0x323DC031BD80055,
    0x323DC031BD80075, 0x300E600005902, 0x300E600007902, 0x323DC00005902, 0x323DC00007902,
    0x309E600005902, 0x309E600007902, 0x303E600005902, 0x303E600007902, 0x60100, 0x313E60003B102,
    0x314E60003B102, 0x300E60313E603B1, 0x300E60314E603B1, 0x301E60313E603B1, 0x301E60314E603B1,
    0x342E60313E603B1, 0x342E60314E603B1, 0x313E600039102, 0x314E600039102, 0x300E60313E60391,
    0x300E60314E60391, 0x301E60313E60391, 0x301E60314E60391, 0x342E60313E60391, 0x342E60314E60391,
    0x313E60003B502, 0x314E60003B502, 0x300E60313E603B5, 0x300E60314E603B5, 0x301E60313E603B5,
    0x301E60314E603B5, 0, 0, 0x313E600039502, 0x314E600039502, 0x300E60313E60395, 0x300E60314E60395,
    0x301E60313E60395, 0x301E60314E60395, 0, 0, 0x313E60003B702, 0x314E60003B702, 0x300E60313E603B7,
    0x300E60314E603B7, 0x301E60313E603B7, 0x301E60314E603B7, 0x342E60313E603B7, 0x342E60314E603B7,
    0x313E600039702, 0x314E600039702, 0x300E60313E60397, 0x300E60314E60397, 0x301E60313E60397,
    0x301E60314E60397, 0x342E60313E60397, 0x342E60314E60397, 0x313E60003B902, 0x314E60003B902,
    0x300E60313E603B9, 0x300E60314E603B9, 0x301E60313E603B9, 0x301E60314E603B9, 0x342E60313E603B9,
    0x342E60314E603B9, 0x313E600039902, 0x314E600039902, 0x300E60313E60399, 0x300E60314E60399,
    0x301E60313E60399, 0x301E60314E60399, 0x342E60313E60399, 0x342E60314E60399, 0x313E60003BF02,
    0x314E60003BF02, 0x300E60313E603BF, 0x300E60314E603BF, 0x301E60313E603BF, 0x301E60314E603BF, 0,
    0, 0x313E600039F02, 0x314E600039F02, 0x300E60313E6039F, 0x300E60314E6039F, 0x301E60313E6039F,
    0x301E60314E6039F, 0, 0, 0x313E60003C502, 0x314E60003C502, 0x300E60313E603C5, 0x300E60314E603C5,
    0x301E60313E603C5, 0x301E60314E603C5, 0x342E60313E603C5, 0x342E60314E603C5, 0, 0x314E60003A502,
    0, 0x300E60314E603A5, 0, 0x301E60314E603A5, 0, 0x342E60314E603A5, 0x313E60003C902,
    0x314E60003C902, 0x300E60313E603C9, 0x300E60314E603C9, 0x301E60313E603C9, 0x301E60314E603C9,
    0x342E60313E603C9, 0x342E60314E603C9, 0x313E60003A902, 0x314E60003A902, 0x300E60313E603A9,
    0x300E60314E603A9, 0x301E60313E603A9, 0x301E60314E603A9, 0x342E60313E603A9, 0x342E60314E603A9,
    0x300E60003B102, 0x301E60003B102, 0x300E60003B502, 0x301E60003B502, 0x300E60003B702,
    0x301E60003B702, 0x300E60003B902, 0x301E60003B902, 0x300E60003BF02, 0x301E60003BF02,
    0x300E60003C502, 0x301E60003C502, 0x300E60003C902, 0x301E60003C902, 0, 0, 0x345F00313E603B1,
    0x345F00314E603B1, 0xB0404, 0xF0404, 0x130404, 0x170404, 0x1B0404, 0x1F0404, 0x345F00313E60391,
    0x345F00314E60391, 0x230404, 0x270404, 0x2B0404, 0x2F0404, 0x330404, 0x370404,
    0x345F00313E603B7, 0x345F00314E603B7, 0x3B0404, 0x3F0404, 0x430404, 0x470404, 0x4B0404,
    0x4F0404, 0x345F00313E60397, 0x345F00314E60397, 0x530404, 0x570404, 0x5B0404, 0x5F0404,
    0x630404, 0x670404, 0x345F00313E603C9, 0x345F00314E603C9, 0x6B0404, 0x6F0404, 0x730404,
    0x770404, 0x7B0404, 0x7F0404, 0x345F00313E603A9, 0x345F00314E603A9, 0x830404, 0x870404,
    0x8B0404, 0x8F0404, 0x930404, 0x970404, 0x306E60003B102, 0x304E60003B102, 0x345F00300E603B1,
    0x345F00003B102, 0x345F00301E603B1, 0, 0x342E60003B102, 0x345F00342E603B1, 0x306E600039102,
    0x304E600039102, 0x300E600039102, 0x301E600039102, 0x345F000039102, 0x313E600002002, 0x3B90003,
    0x313E600002002, 0x342E600002002, 0x342E60308E60020, 0x345F00300E603B7, 0x345F00003B702,
    0x345F00301E603B7, 0, 0x342E60003B702, 0x345F00342E603B7, 0x300E600039502, 0x301E600039502,
    0x300E600039702, 0x301E600039702, 0x345F000039702, 0x300E60313E60020, 0x301E60313E60020,
    0x342E60313E60020, 0x306E60003B902, 0x304E60003B902, 0x300E60308E603B9, 0x301E60308E603B9, 0, 0,
    0x342E60003B902, 0x342E60308E603B9, 0x306E600039902, 0x304E600039902, 0x300E600039902,
    0x301E600039902, 0, 0x300E60314E60020, 0x301E60314E60020, 0x342E60314E60020, 0x306E60003C502,
    0x304E60003C502, 0x300E60308E603C5, 0x301E60308E603C5, 0x313E60003C102, 0x314E60003C102,
    0x342E60003C502, 0x342E60308E603C5, 0x306E60003A502, 0x304E60003A502, 0x300E60003A502,
    0x301E60003A502, 0x314E60003A102, 0x300E60308E60020, 0x301E60308E60020, 0x600003, 0, 0,
    0x345F00300E603C9, 0x345F00003C902, 0x345F00301E603C9, 0, 0x342E60003C902, 0x345F00342E603C9,
    0x300E600039F02, 0x301E600039F02, 0x300E60003A902, 0x301E60003A902, 0x345F00003A902,
    0x301E600002002, 0x314E600002002, 0, 0x200003000B0000, 0x60001, 0x20100003, 0x50001,
    0x333DC00002002, 0xC0003, 0x2E0003, 0x2E0000002E02, 0x2E00002E00002E, 0x80009, 0x200003, 0, 0,
    0, 0x20320000203202, 0x2032002032002032, 0, 0x20350000203502, 0x2035002035002035, 0x40003,
    0x210000002102, 0, 0x305E600002002, 0x80003, 0x3F0000003F02, 0x210000003F02, 0x3F0000002102,
    0xD0001, 0x9B0404, 0x70001, 0x200003, 0x10002D, 0x300003, 0x690003, 0, 0, 0x340003, 0x350003,
    0x360003, 0x370003, 0x380003, 0x390003, 0x2B0003, 0x22120003, 0x3D0003, 0x280003, 0x290003,
    0x6E0003, 0x300003, 0x310003, 0x320003, 0x330003, 0x340003, 0x350003, 0x360003, 0x370003,
    0x380003, 0x390003, 0x2B0003, 0x22120003, 0x3D0003, 0x280003, 0x290003, 0, 0x610003, 0x650003,
    0x6F0003, 0x780003, 0x2590003, 0x680003, 0x6B0003, 0x6C0003, 0x6D0003, 0x6E0003, 0x700003,
    0x730003, 0x740003, 0xB0001, 0x730000005202,
];

/// A packed stream of descriptor words.
pub const NFKD_DATA_02: [u64; 963] = [
    0x27000D, 0x20D0E601, 0x20D1E601, 0x20D20101, 0x20D30101, 0x20D4E601, 0x20D5E601, 0x20D6E601,
    0x20D7E601, 0x20D80101, 0x20D90101, 0x20DA0101, 0x20DBE601, 0x20DCE601, 0x40010, 0x20E1E601, 0,
    0, 0, 0x20E50101, 0x20E60101, 0x20E7E601, 0x20E8DC01, 0x20E9E601, 0x20EA0101, 0x20EB0101,
    0x20ECDC01, 0x20EDDC01, 0x20EEDC01, 0x20EFDC01, 0x20F0E601, 0xF0041, 0x6300002F000061,
    0x7300002F000061, 0x430003, 0x43000000B002, 0, 0x6F00002F000063, 0x7500002F000063, 0x1900003, 0,
    0x46000000B002, 0x670003, 0x480003, 0x480003, 0x480003, 0x680003, 0x1270003, 0x490003, 0x490003,
    0x4C0003, 0x6C0003, 0, 0x4E0003, 0x6F0000004E02, 0, 0, 0x500003, 0x510003, 0x520003, 0x520003,
    0x520003, 0, 0, 0x4D0000005302, 0x4C000045000054, 0x4D0000005402, 0, 0x5A0003, 0, 0x3A90003, 0,
    0x5A0003, 0, 0x4B0003, 0x30AE600004102, 0x420003, 0x430003, 0, 0x650003, 0x450003, 0x460003, 0,
    0x4D0003, 0x6F0003, 0x5D00003, 0x5D10003, 0x5D20003, 0x5D30003, 0x690003, 0, 0x58000041000046,
    0x3C00003, 0x3B30003, 0x3930003, 0x3A00003, 0x22110003, 0x40005, 0x440003, 0x640003, 0x650003,
    0x690003, 0x6A0003, 0x60030, 0x37002044000031, 0x39002044000031, 0x9F0404, 0x33002044000031,
    0x33002044000032, 0x35002044000031, 0x35002044000032, 0x35002044000033, 0x35002044000034,
    0x36002044000031, 0x36002044000035, 0x38002044000031, 0x38002044000033, 0x38002044000035,
    0x38002044000037, 0x20440000003102, 0x490003, 0x490000004902, 0x49000049000049, 0x560000004902,
    0x560003, 0x490000005602, 0x49000049000056, 0xA30404, 0x580000004902, 0x580003, 0x490000005802,
    0x49000049000058, 0x4C0003, 0x430003, 0x440003, 0x4D0003, 0x690003, 0x690000006902,
    0x69000069000069, 0x760000006902, 0x760003, 0x690000007602, 0x69000069000076, 0xA70404,
    0x780000006902, 0x780003, 0x690000007802, 0x69000069000078, 0x6C0003, 0x630003, 0x640003,
    0x6D0003, 0x90001, 0x33002044000030, 0x100002, 0x3380100219002, 0x3380100219202, 0x120001,
    0x3380100219402, 0x1E0003, 0x338010021D002, 0x338010021D402, 0x338010021D202, 0x340001,
    0x3380100220302, 0x40004, 0x3380100220802, 0, 0, 0x3380100220B02, 0x170003, 0x3380100222302, 0,
    0x3380100222502, 0x50005, 0x222B0000222B02, 0x222B00222B00222B, 0, 0x222E0000222E02,
    0x222E00222E00222E, 0x100009, 0x3380100223C02, 0, 0, 0x3380100224302, 0, 0, 0x3380100224502, 0,
    0x3380100224802, 0x160003, 0x3380100003D02, 0, 0x3380100226102, 0xA000D, 0x3380100224D02,
    0x3380100003C02, 0x3380100003E02, 0x3380100226402, 0x3380100226502, 0, 0, 0x3380100227202,
    0x3380100227302, 0, 0, 0x3380100227602, 0x3380100227702, 0x6000A, 0x3380100227A02,
    0x3380100227B02, 0, 0, 0x3380100228202, 0x3380100228302, 0, 0, 0x3380100228602, 0x3380100228702,
    0x220004, 0x338010022A202, 0x338010022A802, 0x338010022A902, 0x338010022AB02, 0x300004,
    0x3380100227C02, 0x3380100227D02, 0x3380100229102, 0x3380100229202, 0x60004, 0x338010022B202,
    0x338010022B302, 0x338010022B402, 0x338010022B502, 0x3B0002, 0x30080003, 0x30090003, 0xB5008B,
    0x310003, 0x320003, 0x330003, 0x340003, 0x350003, 0x360003, 0x370003, 0x380003, 0x390003,
    0x300000003102, 0x310000003102, 0x320000003102, 0x330000003102, 0x340000003102, 0x350000003102,
    0x360000003102, 0x370000003102, 0x380000003102, 0x390000003102, 0x300000003202,
    0x29000031000028, 0x29000032000028, 0x29000033000028, 0x29000034000028, 0x29000035000028,
    0x29000036000028, 0x29000037000028, 0x29000038000028, 0x29000039000028, 0xAB0404, 0xAF0404,
    0xB30404, 0xB70404, 0xBB0404, 0xBF0404, 0xC30404, 0xC70404, 0xCB0404, 0xCF0404, 0xD30404,
    0x2E0000003102, 0x2E0000003202, 0x2E0000003302, 0x2E0000003402, 0x2E0000003502, 0x2E0000003602,
    0x2E0000003702, 0x2E0000003802, 0x2E0000003902, 0x2E000030000031, 0x2E000031000031,
    0x2E000032000031, 0x2E000033000031, 0x2E000034000031, 0x2E000035000031, 0x2E000036000031,
    0x2E000037000031, 0x2E000038000031, 0x2E000039000031, 0x2E000030000032, 0x29000061000028,
    0x29000062000028, 0x29000063000028, 0x29000064000028, 0x29000065000028, 0x29000066000028,
    0x29000067000028, 0x29000068000028, 0x29000069000028, 0x2900006A000028, 0x2900006B000028,
    0x2900006C000028, 0x2900006D000028, 0x2900006E000028, 0x2900006F000028, 0x29000070000028,
    0x29000071000028, 0x29000072000028, 0x29000073000028, 0x29000074000028, 0x29000075000028,
    0x29000076000028, 0x29000077000028, 0x29000078000028, 0x29000079000028, 0x2900007A000028,
    0x410003, 0x420003, 0x430003, 0x440003, 0x450003, 0x460003, 0x470003, 0x480003, 0x490003,
    0x4A0003, 0x4B0003, 0x4C0003, 0x4D0003, 0x4E0003, 0x4F0003, 0x500003, 0x510003, 0x520003,
    0x530003, 0x540003, 0x550003, 0x560003, 0x570003, 0x580003, 0x590003, 0x5A0003, 0x610003,
    0x620003, 0x630003, 0x640003, 0x650003, 0x660003, 0x670003, 0x680003, 0x690003, 0x6A0003,
    0x6B0003, 0x6C0003, 0x6D0003, 0x6E0003, 0x6F0003, 0x700003, 0x710003, 0x720003, 0x730003,
    0x740003, 0x750003, 0x760003, 0x770003, 0x780003, 0x790003, 0x7A0003, 0x300003, 0x210001,
    0xD70404, 0x670003, 0x3D00003A00003A, 0x3D0000003D02, 0x3D00003D00003D, 0x650001,
    0x33801002ADD02, 0x9F0002, 0x6A0003, 0x560003, 0x710003, 0x2CEFE601, 0x2CF0E601, 0x2CF1E601,
    0x7D0001, 0x2D610003, 0xF0001, 0x2D7F0901, 0x600020, 0x2DE0E601, 0x2DE1E601, 0x2DE2E601,
    0x2DE3E601, 0x2DE4E601, 0x2DE5E601, 0x2DE6E601, 0x2DE7E601, 0x2DE8E601, 0x2DE9E601, 0x2DEAE601,
    0x2DEBE601, 0x2DECE601, 0x2DEDE601, 0x2DEEE601, 0x2DEFE601, 0x2DF0E601, 0x2DF1E601, 0x2DF2E601,
    0x2DF3E601, 0x2DF4E601, 0x2DF5E601, 0x2DF6E601, 0x2DF7E601, 0x2DF8E601, 0x2DF9E601, 0x2DFAE601,
    0x2DFBE601, 0x2DFCE601, 0x2DFDE601, 0x2DFEE601, 0x2DFFE601, 0x1F0001, 0x6BCD0003, 0x530001,
    0x9F9F0003, 0xC00D6, 0x4E000003, 0x4E280003, 0x4E360003, 0x4E3F0003, 0x4E590003, 0x4E850003,
    0x4E8C0003, 0x4EA00003, 0x4EBA0003, 0x513F0003, 0x51650003, 0x516B0003, 0x51820003, 0x51960003,
    0x51AB0003, 0x51E00003, 0x51F50003, 0x52000003, 0x529B0003, 0x52F90003, 0x53150003, 0x531A0003,
    0x53380003, 0x53410003, 0x535C0003, 0x53690003, 0x53820003, 0x53B60003, 0x53C80003, 0x53E30003,
    0x56D70003, 0x571F0003, 0x58EB0003, 0x59020003, 0x590A0003, 0x59150003, 0x59270003, 0x59730003,
    0x5B500003, 0x5B800003, 0x5BF80003, 0x5C0F0003, 0x5C220003, 0x5C380003, 0x5C6E0003, 0x5C710003,
    0x5DDB0003, 0x5DE50003, 0x5DF10003, 0x5DFE0003, 0x5E720003, 0x5E7A0003, 0x5E7F0003, 0x5EF40003,
    0x5EFE0003, 0x5F0B0003, 0x5F130003, 0x5F500003, 0x5F610003, 0x5F730003, 0x5FC30003, 0x62080003,
    0x62360003, 0x624B0003, 0x652F0003, 0x65340003, 0x65870003, 0x65970003, 0x65A40003, 0x65B90003,
    0x65E00003, 0x65E50003, 0x66F00003, 0x67080003, 0x67280003, 0x6B200003, 0x6B620003, 0x6B790003,
    0x6BB30003, 0x6BCB0003, 0x6BD40003, 0x6BDB0003, 0x6C0F0003, 0x6C140003, 0x6C340003, 0x706B0003,
    0x722A0003, 0x72360003, 0x723B0003, 0x723F0003, 0x72470003, 0x72590003, 0x725B0003, 0x72AC0003,
    0x73840003, 0x73890003, 0x74DC0003, 0x74E60003, 0x75180003, 0x751F0003, 0x75280003, 0x75300003,
    0x758B0003, 0x75920003, 0x76760003, 0x767D0003, 0x76AE0003, 0x76BF0003, 0x76EE0003, 0x77DB0003,
    0x77E20003, 0x77F30003, 0x793A0003, 0x79B80003, 0x79BE0003, 0x7A740003, 0x7ACB0003, 0x7AF90003,
    0x7C730003, 0x7CF80003, 0x7F360003, 0x7F510003, 0x7F8A0003, 0x7FBD0003, 0x80010003, 0x800C0003,
    0x80120003, 0x80330003, 0x807F0003, 0x80890003, 0x81E30003, 0x81EA0003, 0x81F30003, 0x81FC0003,
    0x820C0003, 0x821B0003, 0x821F0003, 0x826E0003, 0x82720003, 0x82780003, 0x864D0003, 0x866B0003,
    0x88400003, 0x884C0003, 0x88630003, 0x897E0003, 0x898B0003, 0x89D20003, 0x8A000003, 0x8C370003,
    0x8C460003, 0x8C550003, 0x8C780003, 0x8C9D0003, 0x8D640003, 0x8D700003, 0x8DB30003, 0x8EAB0003,
    0x8ECA0003, 0x8F9B0003, 0x8FB00003, 0x8FB50003, 0x90910003, 0x91490003, 0x91C60003, 0x91CC0003,
    0x91D10003, 0x95770003, 0x95800003, 0x961C0003, 0x96B60003, 0x96B90003, 0x96E80003, 0x97510003,
    0x975E0003, 0x97620003, 0x97690003, 0x97CB0003, 0x97ED0003, 0x97F30003, 0x98010003, 0x98A80003,
    0x98DB0003, 0x98DF0003, 0x99960003, 0x99990003, 0x99AC0003, 0x9AA80003, 0x9AD80003, 0x9ADF0003,
    0x9B250003, 0x9B2F0003, 0x9B320003, 0x9B3C0003, 0x9B5A0003, 0x9CE50003, 0x9E750003, 0x9E7F0003,
    0x9EA50003, 0x9EBB0003, 0x9EC30003, 0x9ECD0003, 0x9ED10003, 0x9EF90003, 0x9EFD0003, 0x9F0E0003,
    0x9F130003, 0x9F200003, 0x9F3B0003, 0x9F4A0003, 0x9F520003, 0x9F8D0003, 0x9F9C0003, 0x9FA00003,
    0x2A0001, 0x200003, 0x290006, 0x302ADA01, 0x302BE401, 0x302CE801, 0x302DDE01, 0x302EE001,
    0x302FE001, 0x60005, 0x30120003, 0, 0x53410003, 0x53440003, 0x53450003, 0x11001E,
    0x30990800304B02, 0, 0x30990800304D02, 0, 0x30990800304F02, 0, 0x30990800305102, 0,
    0x30990800305302, 0, 0x30990800305502, 0, 0x30990800305702, 0, 0x30990800305902, 0,
    0x30990800305B02, 0, 0x30990800305D02, 0, 0x30990800305F02, 0, 0x30990800306102, 0, 0,
    0x30990800306402, 0, 0x30990800306602, 0, 0x30990800306802, 0x6000E, 0x30990800306F02,
    0x309A0800306F02, 0, 0x30990800307202, 0x309A0800307202, 0, 0x30990800307502, 0x309A0800307502,
    0, 0x30990800307802, 0x309A0800307802, 0, 0x30990800307B02, 0x309A0800307B02, 0x160001,
    0x30990800304602, 0x40007, 0x30990801, 0x309A0801, 0x30990800002002, 0x309A0800002002, 0,
    0x30990800309D02, 0x308A0000308802, 0xC001E, 0x3099080030AB02, 0, 0x3099080030AD02, 0,
    0x3099080030AF02, 0, 0x3099080030B102, 0, 0x3099080030B302, 0, 0x3099080030B502, 0,
    0x3099080030B702, 0, 0x3099080030B902, 0, 0x3099080030BB02, 0, 0x3099080030BD02, 0,
    0x3099080030BF02, 0, 0x3099080030C102, 0, 0, 0x3099080030C402, 0, 0x3099080030C602, 0,
    0x3099080030C802, 0x6000E, 0x3099080030CF02, 0x309A080030CF02, 0, 0x3099080030D202,
    0x309A080030D202, 0, 0x3099080030D502, 0x309A080030D502, 0, 0x3099080030D802, 0x309A080030D802,
    0, 0x3099080030DB02, 0x309A080030DB02, 0x16000C, 0x3099080030A602, 0, 0, 0x3099080030EF02,
    0x3099080030F002, 0x3099080030F102, 0x3099080030F202, 0, 0, 0, 0x3099080030FD02,
    0x30C8000030B302, 0x31006F, 0x11000003, 0x11010003, 0x11AA0003, 0x11020003, 0x11AC0003,
    0x11AD0003, 0x11030003, 0x11040003, 0x11050003, 0x11B00003, 0x11B10003, 0x11B20003, 0x11B30003,
    0x11B40003, 0x11B50003, 0x111A0003, 0x11060003, 0x11070003, 0x11080003, 0x11210003, 0x11090003,
    0x110A0003, 0x110B0003, 0x110C0003, 0x110D0003, 0x110E0003, 0x110F0003, 0x11100003, 0x11110003,
    0x11120003, 0x11610003, 0x11620003, 0x11630003, 0x11640003, 0x11650003, 0x11660003, 0x11670003,
    0x11680003, 0x11690003, 0x116A0003, 0x116B0003, 0x116C0003, 0x116D0003, 0x116E0003, 0x116F0003,
    0x11700003, 0x11710003, 0x11720003, 0x11730003, 0x11740003, 0x11750003, 0x11600003, 0x11140003,
    0x11150003, 0x11C70003, 0x11C80003, 0x11CC0003, 0x11CE0003, 0x11D30003, 0x11D70003, 0x11D90003,
    0x111C0003, 0x11DD0003, 0x11DF0003, 0x111D0003, 0x111E0003, 0x11200003, 0x11220003, 0x11230003,
    0x11270003, 0x11290003, 0x112B0003, 0x112C0003, 0x112D0003, 0x112E0003, 0x112F0003, 0x11320003,
    0x11360003, 0x11400003, 0x11470003, 0x114C0003, 0x11F10003, 0x11F20003, 0x11570003, 0x11580003,
    0x11590003, 0x11840003, 0x11850003, 0x11880003, 0x11910003, 0x11920003, 0x11940003, 0x119E0003,
    0x11A10003, 0, 0, 0, 0x4E000003, 0x4E8C0003, 0x4E090003, 0x56DB0003, 0x4E0A0003, 0x4E2D0003,
    0x4E0B0003, 0x75320003, 0x4E590003, 0x4E190003, 0x4E010003, 0x59290003, 0x57300003, 0x4EBA0003,
    0x600048, 0x29001100000028, 0x29001102000028, 0x29001103000028, 0x29001105000028,
    0x29001106000028, 0x29001107000028, 0x29001109000028, 0x2900110B000028, 0x2900110C000028,
    0x2900110E000028, 0x2900110F000028, 0x29001110000028, 0x29001111000028, 0x29001112000028,
    0xDB0404, 0xDF0404, 0xE30404, 0xE70404, 0xEB0404, 0xEF0404, 0xF30404, 0xF70404, 0xFB0404,
    0xFF0404, 0x1030404, 0x1070404, 0x10B0404, 0x10F0404, 0x1130404, 0x1170704, 0x11E0604, 0,
    0x29004E00000028, 0x29004E8C000028, 0x29004E09000028, 0x290056DB000028, 0x29004E94000028,
    0x2900516D000028, 0x29004E03000028, 0x2900516B000028, 0x29004E5D000028, 0x29005341000028,
    0x29006708000028, 0x2900706B000028, 0x29006C34000028, 0x29006728000028, 0x290091D1000028,
    0x2900571F000028, 0x290065E5000028, 0x2900682A000028, 0x29006709000028, 0x2900793E000028,
    0x2900540D000028, 0x29007279000028, 0x29008CA1000028, 0x2900795D000028, 0x290052B4000028,
    0x29004EE3000028, 0x2900547C000028, 0x29005B66000028, 0x290076E3000028, 0x29004F01000028,
    0x29008CC7000028, 0x29005354000028, 0x2900796D000028, 0x29004F11000028, 0x290081EA000028,
    0x290081F3000028, 0x554F0003, 0x5E7C0003, 0x65870003, 0x7B8F0003,
];

/// A packed stream of descriptor words.
pub const NFKD_DATA_03: [u64; 930] = [
    0x80190, 0x45000054000050, 0x310000003202, 0x320000003202, 0x330000003202, 0x340000003202,
    0x350000003202, 0x360000003202, 0x370000003202, 0x380000003202, 0x390000003202, 0x300000003302,
    0x310000003302, 0x320000003302, 0x330000003302, 0x340000003302, 0x350000003302, 0x11000003,
    0x11020003, 0x11030003, 0x11050003, 0x11060003, 0x11070003, 0x11090003, 0x110B0003, 0x110C0003,
    0x110E0003, 0x110F0003, 0x11100003, 0x11110003, 0x11120003, 0x11610000110002, 0x11610000110202,
    0x11610000110302, 0x11610000110502, 0x11610000110602, 0x11610000110702, 0x11610000110902,
    0x11610000110B02, 0x11610000110C02, 0x11610000110E02, 0x11610000110F02, 0x11610000111002,
    0x11610000111102, 0x11610000111202, 0x1240504, 0x1290404, 0x116E0000110B02, 0, 0x4E000003,
    0x4E8C0003, 0x4E090003, 0x56DB0003, 0x4E940003, 0x516D0003, 0x4E030003, 0x516B0003, 0x4E5D0003,
    0x53410003, 0x67080003, 0x706B0003, 0x6C340003, 0x67280003, 0x91D10003, 0x571F0003, 0x65E50003,
    0x682A0003, 0x67090003, 0x793E0003, 0x540D0003, 0x72790003, 0x8CA10003, 0x795D0003, 0x52B40003,
    0x79D80003, 0x75370003, 0x59730003, 0x90690003, 0x512A0003, 0x53700003, 0x6CE80003, 0x98050003,
    0x4F110003, 0x51990003, 0x6B630003, 0x4E0A0003, 0x4E2D0003, 0x4E0B0003, 0x5DE60003, 0x53F30003,
    0x533B0003, 0x5B970003, 0x5B660003, 0x76E30003, 0x4F010003, 0x8CC70003, 0x53540003, 0x591C0003,
    0x360000003302, 0x370000003302, 0x380000003302, 0x390000003302, 0x300000003402, 0x310000003402,
    0x320000003402, 0x330000003402, 0x340000003402, 0x350000003402, 0x360000003402, 0x370000003402,
    0x380000003402, 0x390000003402, 0x300000003502, 0x67080000003102, 0x67080000003202,
    0x67080000003302, 0x67080000003402, 0x67080000003502, 0x67080000003602, 0x67080000003702,
    0x67080000003802, 0x67080000003902, 0x6708000030000031, 0x6708000031000031, 0x6708000032000031,
    0x670000004802, 0x67000072000065, 0x560000006502, 0x4400005400004C, 0x30A20003, 0x30A40003,
    0x30A60003, 0x30A80003, 0x30AA0003, 0x30AB0003, 0x30AD0003, 0x30AF0003, 0x30B10003, 0x30B30003,
    0x30B50003, 0x30B70003, 0x30B90003, 0x30BB0003, 0x30BD0003, 0x30BF0003, 0x30C10003, 0x30C40003,
    0x30C60003, 0x30C80003, 0x30CA0003, 0x30CB0003, 0x30CC0003, 0x30CD0003, 0x30CE0003, 0x30CF0003,
    0x30D20003, 0x30D50003, 0x30D80003, 0x30DB0003, 0x30DE0003, 0x30DF0003, 0x30E00003, 0x30E10003,
    0x30E20003, 0x30E40003, 0x30E60003, 0x30E80003, 0x30E90003, 0x30EA0003, 0x30EB0003, 0x30EC0003,
    0x30ED0003, 0x30EF0003, 0x30F00003, 0x30F10003, 0x30F20003, 0x548C00004EE402, 0x12D0504,
    0x1320404, 0x1360504, 0x30EB0030FC0030A2, 0x13B0504, 0x30C10030F30030A4, 0x30F30030A90030A6,
    0x1400604, 0x1460404, 0x30B90030F30030AA, 0x30E00030FC0030AA, 0x30EA0030A40030AB, 0x14A0404,
    0x14E0404, 0x1520404, 0x1560404, 0x15A0404, 0x15E0404, 0x1620404, 0x1660604, 0x30ED000030AD02,
    0x16C0604, 0x1720604, 0x1780504, 0x17D0404, 0x1810604, 0x1870604, 0x18D0404, 0x30B90030FC0030B1,
    0x30CA0030EB0030B3, 0x1910404, 0x1950404, 0x1990504, 0x19E0504, 0x30C10030F30030BB,
    0x30C80030F30030BB, 0x1A30404, 0x30B70030990830C6, 0x30EB0030990830C8, 0x30F3000030C802,
    0x30CE000030CA02, 0x30C80030C30030CE, 0x30C40030A40030CF, 0x1A70604, 0x1AD0404, 0x1B10504,
    0x1B60604, 0x1BC0404, 0x30B300309A0830D2, 0x30EB0030990830D2, 0x1C00604, 0x1C60404, 0x1CA0604,
    0x30F30030E90030D5, 0x1D00504, 0x30BD00309A0830D8, 0x1D50404, 0x30C40030EB0030D8, 0x1D90404,
    0x1DD0504, 0x1E20404, 0x1E60504, 0x1EB0404, 0x30F3000030DB02, 0x1EF0504, 0x30EB0030FC0030DB,
    0x30F30030FC0030DB, 0x1F40404, 0x30EB0030A40030DE, 0x30CF0030C30030DE, 0x30AF0030EB0030DE,
    0x1F80504, 0x1FD0404, 0x30EA000030DF02, 0x2010604, 0x30990830AB0030E1, 0x2070504, 0x20C0404,
    0x2100404, 0x30EB0030FC0030E4, 0x30F30030A20030E6, 0x2140404, 0x30E9000030EA02, 0x2180404,
    0x21C0504, 0x30E0000030EC02, 0x2210604, 0x30C80030C30030EF, 0x70B90000003002, 0x70B90000003102,
    0x70B90000003202, 0x70B90000003302, 0x70B90000003402, 0x70B90000003502, 0x70B90000003602,
    0x70B90000003702, 0x70B90000003802, 0x70B90000003902, 0x70B9000030000031, 0x70B9000031000031,
    0x70B9000032000031, 0x70B9000033000031, 0x70B9000034000031, 0x70B9000035000031,
    0x70B9000036000031, 0x70B9000037000031, 0x70B9000038000031, 0x70B9000039000031,
    0x70B9000030000032, 0x70B9000031000032, 0x70B9000032000032, 0x70B9000033000032,
    0x70B9000034000032, 0x61000050000068, 0x610000006402, 0x550000004102, 0x72000061000062,
    0x560000006F02, 0x630000007002, 0x6D0000006402, 0x3200006D000064, 0x3300006D000064,
    0x550000004902, 0x621000005E7302, 0x548C0000662D02, 0x6B630000592702, 0x6CBB0000660E02,
    0x2270404, 0x410000007002, 0x410000006E02, 0x41000003BC02, 0x410000006D02, 0x410000006B02,
    0x420000004B02, 0x420000004D02, 0x420000004702, 0x6C000061000063, 0x22B0404, 0x460000007002,
    0x460000006E02, 0x46000003BC02, 0x67000003BC02, 0x670000006D02, 0x670000006B02, 0x7A0000004802,
    0x7A00004800006B, 0x7A00004800004D, 0x7A000048000047, 0x7A000048000054, 0x6C000003BC02,
    0x6C0000006D02, 0x6C0000006402, 0x6C0000006B02, 0x6D0000006602, 0x6D0000006E02, 0x6D000003BC02,
    0x6D0000006D02, 0x6D0000006302, 0x6D0000006B02, 0x3200006D00006D, 0x3200006D000063,
    0x320000006D02, 0x3200006D00006B, 0x3300006D00006D, 0x3300006D000063, 0x330000006D02,
    0x3300006D00006B, 0x7300221500006D, 0x22F0404, 0x610000005002, 0x6100005000006B,
    0x6100005000004D, 0x61000050000047, 0x64000061000072, 0x2330504, 0x2380604, 0x730000007002,
    0x730000006E02, 0x73000003BC02, 0x730000006D02, 0x560000007002, 0x560000006E02, 0x56000003BC02,
    0x560000006D02, 0x560000006B02, 0x560000004D02, 0x570000007002, 0x570000006E02, 0x57000003BC02,
    0x570000006D02, 0x570000006B02, 0x570000004D02, 0x3A90000006B02, 0x3A90000004D02, 0x23E0404,
    0x710000004202, 0x630000006302, 0x640000006302, 0x2420404, 0x2E00006F000043, 0x420000006402,
    0x790000004702, 0x610000006802, 0x500000004802, 0x6E0000006902, 0x4B0000004B02, 0x4D0000004B02,
    0x740000006B02, 0x6D0000006C02, 0x6E0000006C02, 0x6700006F00006C, 0x780000006C02,
    0x620000006D02, 0x6C00006900006D, 0x6C00006F00006D, 0x480000005002, 0x2460404, 0x4D000050000050,
    0x520000005002, 0x720000007302, 0x760000005302, 0x620000005702, 0x6D002215000056,
    0x6D002215000041, 0x20, 0x65E50000003102, 0x65E50000003202, 0x65E50000003302, 0x65E50000003402,
    0x65E50000003502, 0x65E50000003602, 0x65E50000003702, 0x65E50000003802, 0x65E50000003902,
    0x65E5000030000031, 0x65E5000031000031, 0x65E5000032000031, 0x65E5000033000031,
    0x65E5000034000031, 0x65E5000035000031, 0x65E5000036000031, 0x65E5000037000031,
    0x65E5000038000031, 0x65E5000039000031, 0x65E5000030000032, 0x65E5000031000032,
    0x65E5000032000032, 0x65E5000033000032, 0x65E5000034000032, 0x65E5000035000032,
    0x65E5000036000032, 0x65E5000037000032, 0x65E5000038000032, 0x65E5000039000032,
    0x65E5000030000033, 0x65E5000031000033, 0x6C000061000067, 0x6F0001, 0xA66FE601, 0x4000A,
    0xA674E601, 0xA675E601, 0xA676E601, 0xA677E601, 0xA678E601, 0xA679E601, 0xA67AE601, 0xA67BE601,
    0xA67CE601, 0xA67DE601, 0x1E0004, 0x44A0003, 0x44C0003, 0xA69EE601, 0xA69FE601, 0x500002,
    0xA6F0E601, 0xA6F1E601, 0x7E0001, 0xA76F0003, 0x810008, 0x430003, 0x460003, 0x510003, 0, 0, 0,
    0x1260003, 0x1530003, 0xC0001, 0xA8060901, 0x250001, 0xA82C0901, 0x970001, 0xA8C40901, 0x1B0012,
    0xA8E0E601, 0xA8E1E601, 0xA8E2E601, 0xA8E3E601, 0xA8E4E601, 0xA8E5E601, 0xA8E6E601, 0xA8E7E601,
    0xA8E8E601, 0xA8E9E601, 0xA8EAE601, 0xA8EBE601, 0xA8ECE601, 0xA8EDE601, 0xA8EEE601, 0xA8EFE601,
    0xA8F0E601, 0xA8F1E601, 0x390003, 0xA92BDC01, 0xA92CDC01, 0xA92DDC01, 0x250001, 0xA9530901,
    0x5F0001, 0xA9B30701, 0xC0001, 0xA9C00901, 0x6F0009, 0xAAB0E601, 0, 0xAAB2E601, 0xAAB3E601,
    0xAAB4DC01, 0, 0, 0xAAB7E601, 0xAAB8E601, 0x50004, 0xAABEE601, 0xAABFE601, 0, 0xAAC1E601,
    0x340001, 0xAAF60901, 0x650004, 0xA7270003, 0xAB370003, 0x26B0003, 0xAB520003, 0x90001,
    0x28D0003, 0x830001, 0xABED0901, 0x120000, 0x500A40000, 0x5C0190, 0x8C480003, 0x66F40003,
    0x8ECA0003, 0x8CC80003, 0x6ED10003, 0x4E320003, 0x53E50003, 0x9F9C0003, 0x9F9C0003, 0x59510003,
    0x91D10003, 0x55870003, 0x59480003, 0x61F60003, 0x76690003, 0x7F850003, 0x863F0003, 0x87BA0003,
    0x88F80003, 0x908F0003, 0x6A020003, 0x6D1B0003, 0x70D90003, 0x73DE0003, 0x843D0003, 0x916A0003,
    0x99F10003, 0x4E820003, 0x53750003, 0x6B040003, 0x721B0003, 0x862D0003, 0x9E1E0003, 0x5D500003,
    0x6FEB0003, 0x85CD0003, 0x89640003, 0x62C90003, 0x81D80003, 0x881F0003, 0x5ECA0003, 0x67170003,
    0x6D6A0003, 0x72FC0003, 0x90CE0003, 0x4F860003, 0x51B70003, 0x52DE0003, 0x64C40003, 0x6AD30003,
    0x72100003, 0x76E70003, 0x80010003, 0x86060003, 0x865C0003, 0x8DEF0003, 0x97320003, 0x9B6F0003,
    0x9DFA0003, 0x788C0003, 0x797F0003, 0x7DA00003, 0x83C90003, 0x93040003, 0x9E7F0003, 0x8AD60003,
    0x58DF0003, 0x5F040003, 0x7C600003, 0x807E0003, 0x72620003, 0x78CA0003, 0x8CC20003, 0x96F70003,
    0x58D80003, 0x5C620003, 0x6A130003, 0x6DDA0003, 0x6F0F0003, 0x7D2F0003, 0x7E370003, 0x964B0003,
    0x52D20003, 0x808B0003, 0x51DC0003, 0x51CC0003, 0x7A1C0003, 0x7DBE0003, 0x83F10003, 0x96750003,
    0x8B800003, 0x62CF0003, 0x6A020003, 0x8AFE0003, 0x4E390003, 0x5BE70003, 0x60120003, 0x73870003,
    0x75700003, 0x53170003, 0x78FB0003, 0x4FBF0003, 0x5FA90003, 0x4E0D0003, 0x6CCC0003, 0x65780003,
    0x7D220003, 0x53C30003, 0x585E0003, 0x77010003, 0x84490003, 0x8AAA0003, 0x6BBA0003, 0x8FB00003,
    0x6C880003, 0x62FE0003, 0x82E50003, 0x63A00003, 0x75650003, 0x4EAE0003, 0x51690003, 0x51C90003,
    0x68810003, 0x7CE70003, 0x826F0003, 0x8AD20003, 0x91CF0003, 0x52F50003, 0x54420003, 0x59730003,
    0x5EEC0003, 0x65C50003, 0x6FFE0003, 0x792A0003, 0x95AD0003, 0x9A6A0003, 0x9E970003, 0x9ECE0003,
    0x529B0003, 0x66C60003, 0x6B770003, 0x8F620003, 0x5E740003, 0x61900003, 0x62000003, 0x649A0003,
    0x6F230003, 0x71490003, 0x74890003, 0x79CA0003, 0x7DF40003, 0x806F0003, 0x8F260003, 0x84EE0003,
    0x90230003, 0x934A0003, 0x52170003, 0x52A30003, 0x54BD0003, 0x70C80003, 0x88C20003, 0x8AAA0003,
    0x5EC90003, 0x5FF50003, 0x637B0003, 0x6BAE0003, 0x7C3E0003, 0x73750003, 0x4EE40003, 0x56F90003,
    0x5BE70003, 0x5DBA0003, 0x601C0003, 0x73B20003, 0x74690003, 0x7F9A0003, 0x80460003, 0x92340003,
    0x96F60003, 0x97480003, 0x98180003, 0x4F8B0003, 0x79AE0003, 0x91B40003, 0x96B80003, 0x60E10003,
    0x4E860003, 0x50DA0003, 0x5BEE0003, 0x5C3F0003, 0x65990003, 0x6A020003, 0x71CE0003, 0x76420003,
    0x84FC0003, 0x907C0003, 0x9F8D0003, 0x66880003, 0x962E0003, 0x52890003, 0x677B0003, 0x67F30003,
    0x6D410003, 0x6E9C0003, 0x74090003, 0x75590003, 0x786B0003, 0x7D100003, 0x985E0003, 0x516D0003,
    0x622E0003, 0x96780003, 0x502B0003, 0x5D190003, 0x6DEA0003, 0x8F2A0003, 0x5F8B0003, 0x61440003,
    0x68170003, 0x73870003, 0x96860003, 0x52290003, 0x540F0003, 0x5C650003, 0x66130003, 0x674E0003,
    0x68A80003, 0x6CE50003, 0x74060003, 0x75E20003, 0x7F790003, 0x88CF0003, 0x88E10003, 0x91CC0003,
    0x96E20003, 0x533F0003, 0x6EBA0003, 0x541D0003, 0x71D00003, 0x74980003, 0x85FA0003, 0x96A30003,
    0x9C570003, 0x9E9F0003, 0x67970003, 0x6DCB0003, 0x81E80003, 0x7ACB0003, 0x7B200003, 0x7C920003,
    0x72C00003, 0x70990003, 0x8B580003, 0x4EC00003, 0x83360003, 0x523A0003, 0x52070003, 0x5EA60003,
    0x62D30003, 0x7CD60003, 0x5B850003, 0x6D1E0003, 0x66B40003, 0x8F3B0003, 0x884C0003, 0x964D0003,
    0x898B0003, 0x5ED30003, 0x51400003, 0x55C00003, 0, 0, 0x585A0003, 0, 0x66740003, 0, 0,
    0x51DE0003, 0x732A0003, 0x76CA0003, 0x793C0003, 0x795E0003, 0x79650003, 0x798F0003, 0x97560003,
    0x7CBE0003, 0x7FBD0003, 0, 0x86120003, 0, 0x8AF80003, 0, 0, 0x90380003, 0x90FD0003, 0, 0, 0,
    0x98EF0003, 0x98FC0003, 0x99280003, 0x9DB40003, 0x90DE0003, 0x96B70003, 0x4FAE0003, 0x50E70003,
    0x514D0003, 0x52C90003, 0x52E40003, 0x53510003, 0x559D0003, 0x56060003, 0x56680003, 0x58400003,
    0x58A80003, 0x5C640003, 0x5C6E0003, 0x60940003, 0x61680003, 0x618E0003, 0x61F20003, 0x654F0003,
    0x65E20003, 0x66910003, 0x68850003, 0x6D770003, 0x6E1A0003, 0x6F220003, 0x716E0003, 0x722B0003,
    0x74220003, 0x78910003, 0x793E0003, 0x79490003, 0x79480003, 0x79500003, 0x79560003, 0x795D0003,
    0x798D0003, 0x798E0003, 0x7A400003, 0x7A810003, 0x7BC00003, 0x7DF40003, 0x7E090003, 0x7E410003,
    0x7F720003, 0x80050003, 0x81ED0003, 0x82790003, 0x82790003, 0x84570003, 0x89100003, 0x89960003,
    0x8B010003, 0x8B390003, 0x8CD30003, 0x8D080003, 0x8FB60003, 0x90380003, 0x96E30003, 0x97FF0003,
    0x983B0003, 0x60750003, 0x242EE0003, 0x82180003, 0, 0, 0x4E260003, 0x51B50003, 0x51680003,
    0x4F800003, 0x51450003, 0x51800003, 0x52C70003, 0x52FA0003, 0x559D0003, 0x55550003, 0x55990003,
    0x55E20003, 0x585A0003, 0x58B30003, 0x59440003, 0x59540003, 0x5A620003, 0x5B280003, 0x5ED20003,
    0x5ED90003, 0x5F690003, 0x5FAD0003, 0x60D80003, 0x614E0003, 0x61080003, 0x618E0003, 0x61600003,
    0x61F20003, 0x62340003, 0x63C40003, 0x641C0003, 0x64520003,
];

/// A packed stream of descriptor words.
pub const NFKD_DATA_04: [u64; 836] = [
    0x4A, 0x65560003, 0x66740003, 0x67170003, 0x671B0003, 0x67560003, 0x6B790003, 0x6BBA0003,
    0x6D410003, 0x6EDB0003, 0x6ECB0003, 0x6F220003, 0x701E0003, 0x716E0003, 0x77A70003, 0x72350003,
    0x72AF0003, 0x732A0003, 0x74710003, 0x75060003, 0x753B0003, 0x761D0003, 0x761F0003, 0x76CA0003,
    0x76DB0003, 0x76F40003, 0x774A0003, 0x77400003, 0x78CC0003, 0x7AB10003, 0x7BC00003, 0x7C7B0003,
    0x7D5B0003, 0x7DF40003, 0x7F3E0003, 0x80050003, 0x83520003, 0x83EF0003, 0x87790003, 0x89410003,
    0x89860003, 0x89960003, 0x8ABF0003, 0x8AF80003, 0x8ACB0003, 0x8B010003, 0x8AFE0003, 0x8AED0003,
    0x8B390003, 0x8B8A0003, 0x8D080003, 0x8F380003, 0x90720003, 0x91990003, 0x92760003, 0x967C0003,
    0x96E30003, 0x97560003, 0x97DB0003, 0x97FF0003, 0x980B0003, 0x983B0003, 0x9B120003, 0x9F9C0003,
    0x2284A0003, 0x228440003, 0x233D50003, 0x3B9D0003, 0x40180003, 0x40390003, 0x252490003,
    0x25CD00003, 0x27ED30003, 0x9F430003, 0x9F8E0003, 0x260007, 0x660000006602, 0x690000006602,
    0x6C0000006602, 0x69000066000066, 0x6C000066000066, 0x740000007302, 0x740000007302, 0xC0005,
    0x5760000057402, 0x5650000057402, 0x56B0000057402, 0x5760000057E02, 0x56D0000057402, 0x50035,
    0x5B40E0005D902, 0xFB1E1A01, 0x5B7110005F202, 0x5E20003, 0x5D00003, 0x5D30003, 0x5D40003,
    0x5DB0003, 0x5DC0003, 0x5DD0003, 0x5E80003, 0x5EA0003, 0x2B0003, 0x5C1180005E902,
    0x5C2190005E902, 0x5C11805BC1505E9, 0x5C21905BC1505E9, 0x5B7110005D002, 0x5B8120005D002,
    0x5BC150005D002, 0x5BC150005D102, 0x5BC150005D202, 0x5BC150005D302, 0x5BC150005D402,
    0x5BC150005D502, 0x5BC150005D602, 0, 0x5BC150005D802, 0x5BC150005D902, 0x5BC150005DA02,
    0x5BC150005DB02, 0x5BC150005DC02, 0, 0x5BC150005DE02, 0, 0x5BC150005E002, 0x5BC150005E102, 0,
    0x5BC150005E302, 0x5BC150005E402, 0, 0x5BC150005E602, 0x5BC150005E702, 0x5BC150005E802,
    0x5BC150005E902, 0x5BC150005EA02, 0x5B9130005D502, 0x5BF170005D102, 0x5BF170005DB02,
    0x5BF170005E402, 0x5DC000005D002, 0x6710003, 0x6710003, 0x67B000300040000, 0x67E000300040000,
    0x680000300040000, 0x67A000300040000, 0x67F000300040000, 0x679000300040000, 0x6A4000300040000,
    0x6A6000300040000, 0x684000300040000, 0x683000300040000, 0x686000300040000, 0x68700030004000C,
    0x68D0003, 0x68D0003, 0x68C0003, 0x68C0003, 0x68E0003, 0x68E0003, 0x6880003, 0x6880003,
    0x6980003, 0x6980003, 0x6910003, 0x6910003, 0x6A9000300040000, 0x6AF000300040000,
    0x6B3000300040000, 0x6B1000300040002, 0x6BA0003, 0x6BA0003, 0x6BB000300040002, 0x654E60006D502,
    0x654E60006D502, 0x6C1000300040000, 0x6BE000300040004, 0x6D20003, 0x6D20003, 0x654E60006D202,
    0x654E60006D202, 0x210000, 0x6AD00030004000D, 0x6C70003, 0x6C70003, 0x6C60003, 0x6C60003,
    0x6C80003, 0x6C80003, 0x674000006C702, 0x6CB0003, 0x6CB0003, 0x6C50003, 0x6C50003, 0x6C90003,
    0x6C90003, 0x6D0000300040014, 0x6490003, 0x6490003, 0x627000654E6064A, 0x627000654E6064A,
    0x6D5000654E6064A, 0x6D5000654E6064A, 0x648000654E6064A, 0x648000654E6064A, 0x6C7000654E6064A,
    0x6C7000654E6064A, 0x6C6000654E6064A, 0x6C6000654E6064A, 0x6C8000654E6064A, 0x6C8000654E6064A,
    0x6D0000654E6064A, 0x6D0000654E6064A, 0x6D0000654E6064A, 0x649000654E6064A, 0x649000654E6064A,
    0x649000654E6064A, 0x6CC00030004013E, 0x62C000654E6064A, 0x62D000654E6064A, 0x645000654E6064A,
    0x649000654E6064A, 0x64A000654E6064A, 0x62C0000062802, 0x62D0000062802, 0x62E0000062802,
    0x6450000062802, 0x6490000062802, 0x64A0000062802, 0x62C0000062A02, 0x62D0000062A02,
    0x62E0000062A02, 0x6450000062A02, 0x6490000062A02, 0x64A0000062A02, 0x62C0000062B02,
    0x6450000062B02, 0x6490000062B02, 0x64A0000062B02, 0x62D0000062C02, 0x6450000062C02,
    0x62C0000062D02, 0x6450000062D02, 0x62C0000062E02, 0x62D0000062E02, 0x6450000062E02,
    0x62C0000063302, 0x62D0000063302, 0x62E0000063302, 0x6450000063302, 0x62D0000063502,
    0x6450000063502, 0x62C0000063602, 0x62D0000063602, 0x62E0000063602, 0x6450000063602,
    0x62D0000063702, 0x6450000063702, 0x6450000063802, 0x62C0000063902, 0x6450000063902,
    0x62C0000063A02, 0x6450000063A02, 0x62C0000064102, 0x62D0000064102, 0x62E0000064102,
    0x6450000064102, 0x6490000064102, 0x64A0000064102, 0x62D0000064202, 0x6450000064202,
    0x6490000064202, 0x64A0000064202, 0x6270000064302, 0x62C0000064302, 0x62D0000064302,
    0x62E0000064302, 0x6440000064302, 0x6450000064302, 0x6490000064302, 0x64A0000064302,
    0x62C0000064402, 0x62D0000064402, 0x62E0000064402, 0x6450000064402, 0x6490000064402,
    0x64A0000064402, 0x62C0000064502, 0x62D0000064502, 0x62E0000064502, 0x6450000064502,
    0x6490000064502, 0x64A0000064502, 0x62C0000064602, 0x62D0000064602, 0x62E0000064602,
    0x6450000064602, 0x6490000064602, 0x64A0000064602, 0x62C0000064702, 0x6450000064702,
    0x6490000064702, 0x64A0000064702, 0x62C0000064A02, 0x62D0000064A02, 0x62E0000064A02,
    0x6450000064A02, 0x6490000064A02, 0x64A0000064A02, 0x6702300063002, 0x6702300063102,
    0x6702300064902, 0x65121064C1C0020, 0x65121064D1D0020, 0x65121064E1E0020, 0x65121064F1F0020,
    0x651210650200020, 0x670230651210020, 0x631000654E6064A, 0x632000654E6064A, 0x645000654E6064A,
    0x646000654E6064A, 0x649000654E6064A, 0x64A000654E6064A, 0x6310000062802, 0x6320000062802,
    0x6450000062802, 0x6460000062802, 0x6490000062802, 0x64A0000062802, 0x6310000062A02,
    0x6320000062A02, 0x6450000062A02, 0x6460000062A02, 0x6490000062A02, 0x64A0000062A02,
    0x6310000062B02, 0x6320000062B02, 0x6450000062B02, 0x6460000062B02, 0x6490000062B02,
    0x64A0000062B02, 0x6490000064102, 0x64A0000064102, 0x6490000064202, 0x64A0000064202,
    0x6270000064302, 0x6440000064302, 0x6450000064302, 0x6490000064302, 0x64A0000064302,
    0x6450000064402, 0x6490000064402, 0x64A0000064402, 0x6270000064502, 0x6450000064502,
    0x6310000064602, 0x6320000064602, 0x6450000064602, 0x6460000064602, 0x6490000064602,
    0x64A0000064602, 0x6702300064902, 0x6310000064A02, 0x6320000064A02, 0x6450000064A02,
    0x6460000064A02, 0x6490000064A02, 0x64A0000064A02, 0x62C000654E6064A, 0x62D000654E6064A,
    0x62E000654E6064A, 0x645000654E6064A, 0x647000654E6064A, 0x62C0000062802, 0x62D0000062802,
    0x62E0000062802, 0x6450000062802, 0x6470000062802, 0x62C0000062A02, 0x62D0000062A02,
    0x62E0000062A02, 0x6450000062A02, 0x6470000062A02, 0x6450000062B02, 0x62D0000062C02,
    0x6450000062C02, 0x62C0000062D02, 0x6450000062D02, 0x62C0000062E02, 0x6450000062E02,
    0x62C0000063302, 0x62D0000063302, 0x62E0000063302, 0x6450000063302, 0x62D0000063502,
    0x62E0000063502, 0x6450000063502, 0x62C0000063602, 0x62D0000063602, 0x62E0000063602,
    0x6450000063602, 0x62D0000063702, 0x6450000063802, 0x62C0000063902, 0x6450000063902,
    0x62C0000063A02, 0x6450000063A02, 0x62C0000064102, 0x62D0000064102, 0x62E0000064102,
    0x6450000064102, 0x62D0000064202, 0x6450000064202, 0x62C0000064302, 0x62D0000064302,
    0x62E0000064302, 0x6440000064302, 0x6450000064302, 0x62C0000064402, 0x62D0000064402,
    0x62E0000064402, 0x6450000064402, 0x6470000064402, 0x62C0000064502, 0x62D0000064502,
    0x62E0000064502, 0x6450000064502, 0x62C0000064602, 0x62D0000064602, 0x62E0000064602,
    0x6450000064602, 0x6470000064602, 0x62C0000064702, 0x6450000064702, 0x6702300064702,
    0x62C0000064A02, 0x62D0000064A02, 0x62E0000064A02, 0x6450000064A02, 0x6470000064A02,
    0x645000654E6064A, 0x647000654E6064A, 0x6450000062802, 0x6470000062802, 0x6450000062A02,
    0x6470000062A02, 0x6450000062B02, 0x6470000062B02, 0x6450000063302, 0x6470000063302,
    0x6450000063402, 0x6470000063402, 0x6440000064302, 0x6450000064302, 0x6450000064402,
    0x6450000064602, 0x6470000064602, 0x6450000064A02, 0x6470000064A02, 0x65121064E1E0640,
    0x65121064F1F0640, 0x651210650200640, 0x6490000063702, 0x64A0000063702, 0x6490000063902,
    0x64A0000063902, 0x6490000063A02, 0x64A0000063A02, 0x6490000063302, 0x64A0000063302,
    0x6490000063402, 0x64A0000063402, 0x6490000062D02, 0x64A0000062D02, 0x6490000062C02,
    0x64A0000062C02, 0x6490000062E02, 0x64A0000062E02, 0x6490000063502, 0x64A0000063502,
    0x6490000063602, 0x64A0000063602, 0x62C0000063402, 0x62D0000063402, 0x62E0000063402,
    0x6450000063402, 0x6310000063402, 0x6310000063302, 0x6310000063502, 0x6310000063602,
    0x6490000063702, 0x64A0000063702, 0x6490000063902, 0x64A0000063902, 0x6490000063A02,
    0x64A0000063A02, 0x6490000063302, 0x64A0000063302, 0x6490000063402, 0x64A0000063402,
    0x6490000062D02, 0x64A0000062D02, 0x6490000062C02, 0x64A0000062C02, 0x6490000062E02,
    0x64A0000062E02, 0x6490000063502, 0x64A0000063502, 0x6490000063602, 0x64A0000063602,
    0x62C0000063402, 0x62D0000063402, 0x62E0000063402, 0x6450000063402, 0x6310000063402,
    0x6310000063302, 0x6310000063502, 0x6310000063602, 0x62C0000063402, 0x62D0000063402,
    0x62E0000063402, 0x6450000063402, 0x6470000063302, 0x6470000063402, 0x6450000063702,
    0x62C0000063302, 0x62D0000063302, 0x62E0000063302, 0x62C0000063402, 0x62D0000063402,
    0x62E0000063402, 0x6450000063702, 0x6450000063802, 0x64B1B00062702, 0x64B1B00062702, 0x120078,
    0x64500062C00062A, 0x62C00062D00062A, 0x62C00062D00062A, 0x64500062D00062A, 0x64500062E00062A,
    0x62C00064500062A, 0x62D00064500062A, 0x62E00064500062A, 0x62D00064500062C, 0x62D00064500062C,
    0x64A00064500062D, 0x64900064500062D, 0x62C00062D000633, 0x62D00062C000633, 0x64900062C000633,
    0x62D000645000633, 0x62D000645000633, 0x62C000645000633, 0x645000645000633, 0x645000645000633,
    0x62D00062D000635, 0x62D00062D000635, 0x645000645000635, 0x64500062D000634, 0x64500062D000634,
    0x64A00062C000634, 0x62E000645000634, 0x62E000645000634, 0x645000645000634, 0x645000645000634,
    0x64900062D000636, 0x64500062E000636, 0x64500062E000636, 0x62D000645000637, 0x62D000645000637,
    0x645000645000637, 0x64A000645000637, 0x64500062C000639, 0x645000645000639, 0x645000645000639,
    0x649000645000639, 0x64500064500063A, 0x64A00064500063A, 0x64900064500063A, 0x64500062E000641,
    0x64500062E000641, 0x62D000645000642, 0x645000645000642, 0x64500062D000644, 0x64A00062D000644,
    0x64900062D000644, 0x62C00062C000644, 0x62C00062C000644, 0x64500062E000644, 0x64500062E000644,
    0x62D000645000644, 0x62D000645000644, 0x62C00062D000645, 0x64500062D000645, 0x64A00062D000645,
    0x62D00062C000645, 0x64500062C000645, 0x62C00062E000645, 0x64500062E000645, 0, 0,
    0x62E00062C000645, 0x62C000645000647, 0x645000645000647, 0x64500062D000646, 0x64900062D000646,
    0x64500062C000646, 0x64500062C000646, 0x64900062C000646, 0x64A000645000646, 0x649000645000646,
    0x64500064500064A, 0x64500064500064A, 0x64A00062E000628, 0x64A00062C00062A, 0x64900062C00062A,
    0x64A00062E00062A, 0x64900062E00062A, 0x64A00064500062A, 0x64900064500062A, 0x64A00064500062C,
    0x64900062D00062C, 0x64900064500062C, 0x64900062E000633, 0x64A00062D000635, 0x64A00062D000634,
    0x64A00062D000636, 0x64A00062C000644, 0x64A000645000644, 0x64A00062D00064A, 0x64A00062C00064A,
    0x64A00064500064A, 0x64A000645000645, 0x64A000645000642, 0x64A00062D000646, 0x62D000645000642,
    0x64500062D000644, 0x64A000645000639, 0x64A000645000643, 0x62D00062C000646, 0x64A00062E000645,
    0x64500062C000644, 0x645000645000643, 0x64500062C000644, 0x62D00062C000646, 0x64A00062D00062C,
    0x64A00062C00062D, 0x64A00062C000645, 0x64A000645000641, 0x64A00062D000628, 0x645000645000643,
    0x64500062C000639, 0x645000645000635, 0x64A00062E000633, 0x64A00062C000646, 0x28000D,
    0x6D2000644000635, 0x6D2000644000642, 0x24A0404, 0x24E0404, 0x2520404, 0x2560404, 0x25A0404,
    0x25E0404, 0x2620404, 0x649000644000635, 0x2661204, 0x2780804, 0x2800404, 0x13000A, 0x2C0003,
    0x30010003, 0x30020003, 0x3A0003, 0x3B0003, 0x210003, 0x3F0003, 0x30160003, 0x30170003,
    0x2E00002E00002E, 0x6004C, 0xFE20E601, 0xFE21E601, 0xFE22E601, 0xFE23E601, 0xFE24E601,
    0xFE25E601, 0xFE26E601, 0xFE27DC01, 0xFE28DC01, 0xFE29DC01, 0xFE2ADC01, 0xFE2BDC01, 0xFE2CDC01,
    0xFE2DDC01, 0xFE2EE601, 0xFE2FE601, 0x2E0000002E02, 0x20140003, 0x20130003, 0x5F0003, 0x5F0003,
    0x280003, 0x290003, 0x7B0003, 0x7D0003, 0x30140003, 0x30150003, 0x30100003, 0x30110003,
    0x300A0003, 0x300B0003, 0x30080003, 0x30090003, 0x300C0003, 0x300D0003, 0x300E0003, 0x300F0003,
    0, 0, 0x5B0003, 0x5D0003, 0x305E600002002, 0x305E600002002, 0x305E600002002, 0x305E600002002,
    0x5F0003, 0x5F0003, 0x5F0003, 0x2C0003, 0x30010003, 0x2E0003, 0, 0x3B0003, 0x3A0003, 0x3F0003,
    0x210003, 0x20140003, 0x280003, 0x290003, 0x7B0003, 0x7D0003, 0x30140003, 0x30150003, 0x230003,
    0x260003, 0x2A0003, 0x2B0003, 0x2D0003, 0x3C0003, 0x3E0003, 0x3D0003, 0, 0x5C0003, 0x240003,
    0x250003, 0x400003, 0x4001F, 0x64B1B00002002, 0x64B1B00064002, 0x64C1C00002002, 0,
    0x64D1D00002002, 0, 0x64E1E00002002, 0x64E1E00064002, 0x64F1F00002002, 0x64F1F00064002,
    0x6502000002002, 0x6502000064002, 0x6512100002002, 0x6512100064002, 0x6522200002002,
    0x6522200064002, 0x6210003, 0x653E600062702, 0x653E600062702, 0x654E600062702, 0x654E600062702,
    0x654E600064802, 0x654E600064802, 0x655DC00062702, 0x655DC00062702, 0x654E600064A02,
    0x654E600064A02, 0x654E600064A02, 0x654E600064A02, 0x6270003, 0x6270003, 0x628000300040002,
    0x6290003, 0x6290003, 0x62A000300040000, 0x62B000300040000, 0x62C000300040000,
    0x62D000300040000, 0x62E000300040008, 0x62F0003, 0x62F0003, 0x6300003, 0x6300003, 0x6310003,
    0x6310003, 0x6320003, 0x6320003, 0x633000300040000, 0x634000300040000, 0x635000300040000,
    0x636000300040000, 0x637000300040000, 0x638000300040000, 0x639000300040000, 0x63A000300040000,
    0x641000300040000, 0x642000300040000, 0x643000300040000, 0x644000300040000, 0x645000300040000,
    0x646000300040000, 0x647000300040004, 0x6480003, 0x6480003, 0x6490003, 0x6490003,
    0x64A000300040008, 0x653E60627000644, 0x653E60627000644, 0x654E60627000644, 0x654E60627000644,
    0x655DC0627000644, 0x655DC0627000644, 0x6270000064402, 0x6270000064402,
];

/// A packed stream of descriptor words.
pub const NFKD_DATA_05: [u64; 944] = [
    0x400EE, 0x210003, 0x220003, 0x230003, 0x240003, 0x250003, 0x260003, 0x270003, 0x280003,
    0x290003, 0x2A0003, 0x2B0003, 0x2C0003, 0x2D0003, 0x2E0003, 0x2F0003, 0x300003, 0x310003,
    0x320003, 0x330003, 0x340003, 0x350003, 0x360003, 0x370003, 0x380003, 0x390003, 0x3A0003,
    0x3B0003, 0x3C0003, 0x3D0003, 0x3E0003, 0x3F0003, 0x400003, 0x410003, 0x420003, 0x430003,
    0x440003, 0x450003, 0x460003, 0x470003, 0x480003, 0x490003, 0x4A0003, 0x4B0003, 0x4C0003,
    0x4D0003, 0x4E0003, 0x4F0003, 0x500003, 0x510003, 0x520003, 0x530003, 0x540003, 0x550003,
    0x560003, 0x570003, 0x580003, 0x590003, 0x5A0003, 0x5B0003, 0x5C0003, 0x5D0003, 0x5E0003,
    0x5F0003, 0x600003, 0x610003, 0x620003, 0x630003, 0x640003, 0x650003, 0x660003, 0x670003,
    0x680003, 0x690003, 0x6A0003, 0x6B0003, 0x6C0003, 0x6D0003, 0x6E0003, 0x6F0003, 0x700003,
    0x710003, 0x720003, 0x730003, 0x740003, 0x750003, 0x760003, 0x770003, 0x780003, 0x790003,
    0x7A0003, 0x7B0003, 0x7C0003, 0x7D0003, 0x7E0003, 0x29850003, 0x29860003, 0x30020003,
    0x300C0003, 0x300D0003, 0x30010003, 0x30FB0003, 0x30F20003, 0x30A10003, 0x30A30003, 0x30A50003,
    0x30A70003, 0x30A90003, 0x30E30003, 0x30E50003, 0x30E70003, 0x30C30003, 0x30FC0003, 0x30A20003,
    0x30A40003, 0x30A60003, 0x30A80003, 0x30AA0003, 0x30AB0003, 0x30AD0003, 0x30AF0003, 0x30B10003,
    0x30B30003, 0x30B50003, 0x30B70003, 0x30B90003, 0x30BB0003, 0x30BD0003, 0x30BF0003, 0x30C10003,
    0x30C40003, 0x30C60003, 0x30C80003, 0x30CA0003, 0x30CB0003, 0x30CC0003, 0x30CD0003, 0x30CE0003,
    0x30CF0003, 0x30D20003, 0x30D50003, 0x30D80003, 0x30DB0003, 0x30DE0003, 0x30DF0003, 0x30E00003,
    0x30E10003, 0x30E20003, 0x30E40003, 0x30E60003, 0x30E80003, 0x30E90003, 0x30EA0003, 0x30EB0003,
    0x30EC0003, 0x30ED0003, 0x30EF0003, 0x30F30003, 0x2840104, 0x2850104, 0x11600003, 0x11000003,
    0x11010003, 0x11AA0003, 0x11020003, 0x11AC0003, 0x11AD0003, 0x11030003, 0x11040003, 0x11050003,
    0x11B00003, 0x11B10003, 0x11B20003, 0x11B30003, 0x11B40003, 0x11B50003, 0x111A0003, 0x11060003,
    0x11070003, 0x11080003, 0x11210003, 0x11090003, 0x110A0003, 0x110B0003, 0x110C0003, 0x110D0003,
    0x110E0003, 0x110F0003, 0x11100003, 0x11110003, 0x11120003, 0, 0, 0, 0x11610003, 0x11620003,
    0x11630003, 0x11640003, 0x11650003, 0x11660003, 0, 0, 0x11670003, 0x11680003, 0x11690003,
    0x116A0003, 0x116B0003, 0x116C0003, 0, 0, 0x116D0003, 0x116E0003, 0x116F0003, 0x11700003,
    0x11710003, 0x11720003, 0, 0, 0x11730003, 0x11740003, 0x11750003, 0, 0, 0, 0xA20003, 0xA30003,
    0xAC0003, 0x304E600002002, 0xA60003, 0xA50003, 0x20A90003, 0, 0x25020003, 0x21900003,
    0x21910003, 0x21920003, 0x21930003, 0x25A00003, 0x25CB0003, 0x8E0001, 0x101FDDC01, 0x620001,
    0x102E0DC01, 0x950005, 0x10376E601, 0x10377E601, 0x10378E601, 0x10379E601, 0x1037AE601, 0x6003A,
    0x2D00003, 0x2D10003, 0xE60003, 0x2990003, 0x2530003, 0, 0x2A30003, 0xAB660003, 0x2A50003,
    0x2A40003, 0x2560003, 0x2570003, 0x1D910003, 0x2580003, 0x25E0003, 0x2A90003, 0x2640003,
    0x2620003, 0x2600003, 0x29B0003, 0x1270003, 0x29C0003, 0x2670003, 0x2840003, 0x2AA0003,
    0x2AB0003, 0x26C0003, 0x1DF040003, 0xA78E0003, 0x26E0003, 0x1DF050003, 0x28E0003, 0x1DF060003,
    0xF80003, 0x2760003, 0x2770003, 0x710003, 0x27A0003, 0x1DF080003, 0x27D0003, 0x27E0003,
    0x2800003, 0x2A80003, 0x2A60003, 0xAB670003, 0x2A70003, 0x2880003, 0x2C710003, 0, 0x28F0003,
    0x2A10003, 0x2A20003, 0x2980003, 0x1C00003, 0x1C10003, 0x1C20003, 0x1DF0A0003, 0x1DF1E0003,
    0x520003, 0x10A0DDC01, 0, 0x10A0FE601, 0x280003, 0x10A38E601, 0x10A390101, 0x10A3ADC01, 0x40001,
    0x10A3F0901, 0xA50002, 0x10AE5E601, 0x10AE6DC01, 0x3D0004, 0x10D24E601, 0x10D25E601,
    0x10D26E601, 0x10D27E601, 0x830002, 0x10EABE601, 0x10EACE601, 0x99000B, 0x10F46DC01,
    0x10F47DC01, 0x10F48E601, 0x10F49E601, 0x10F4AE601, 0x10F4BDC01, 0x10F4CE601, 0x10F4DDC01,
    0x10F4EDC01, 0x10F4FDC01, 0x10F50DC01, 0x310004, 0x10F82E601, 0x10F83DC01, 0x10F84E601,
    0x10F85DC01, 0xC00001, 0x110460901, 0x290001, 0x110700901, 0xE0001, 0x1107F0901, 0x1A0003,
    0x110BA0701109902, 0, 0x110BA0701109B02, 0xE0001, 0x110BA070110A502, 0xD0002, 0x110B90901,
    0x110BA0701, 0x450003, 0x11100E601, 0x11101E601, 0x11102E601, 0x2B0007, 0x111270001113102,
    0x111270001113202, 0, 0, 0, 0x111330901, 0x111340901, 0x3E0001, 0x111730701, 0x4C0001,
    0x111C00901, 0x90001, 0x111CA0701, 0x6A0002, 0x112350901, 0x112360701, 0xB20002, 0x112E90701,
    0x112EA0901, 0x500002, 0x1133B0701, 0x1133C0701, 0xE0003, 0x1133E0001134702, 0x113570001134702,
    0x1134D0901, 0x18000F, 0x11366E601, 0x11367E601, 0x11368E601, 0x11369E601, 0x1136AE601,
    0x1136BE601, 0x1136CE601, 0, 0, 0, 0x11370E601, 0x11371E601, 0x11372E601, 0x11373E601,
    0x11374E601, 0x4D0005, 0x114420901, 0, 0, 0, 0x114460701, 0x170001, 0x1145EE601, 0x5C0009,
    0x114BA000114B902, 0x114B0000114B902, 0, 0x114BD000114B902, 0, 0, 0, 0x114C20901, 0x114C30701,
    0x760007, 0x115AF000115B802, 0x115AF000115B902, 0, 0, 0, 0x115BF0901, 0x115C00701, 0x7E0001,
    0x1163F0901, 0x760002, 0x116B60901, 0x116B70701, 0x730001, 0x1172B0901, 0x8D0002, 0x118390901,
    0x1183A0701, 0x7D0001, 0x119300001193502, 0x40002, 0x1193D0901, 0x1193E0901, 0x40001,
    0x119430701, 0x9C0001, 0x119E00901, 0x530001, 0x11A340901, 0x120001, 0x11A470901, 0x510001,
    0x11A990901, 0xA50001, 0x11C3F0901, 0x820004, 0x11D420701, 0, 0x11D440901, 0x11D450901,
    0x510001, 0x11D970901, 0xD80005, 0x16AF00101, 0x16AF10101, 0x16AF20101, 0x16AF30101,
    0x16AF40101, 0x3B0007, 0x16B30E601, 0x16B31E601, 0x16B32E601, 0x16B33E601, 0x16B34E601,
    0x16B35E601, 0x16B36E601, 0xB90002, 0x16FF00601, 0x16FF10601, 0x2C0001, 0x1BC9E0101, 0xBF0015,
    0x1D165D801D15702, 0x1D165D801D15802, 0x2860304, 0x2890304, 0x28C0304, 0x28F0304, 0x2920304,
    0x1D165D801, 0x1D166D801, 0x1D1670101, 0x1D1680101, 0x1D1690101, 0, 0, 0, 0x1D16DE201,
    0x1D16ED801, 0x1D16FD801, 0x1D170D801, 0x1D171D801, 0x1D172D801, 0x80011, 0x1D17BDC01,
    0x1D17CDC01, 0x1D17DDC01, 0x1D17EDC01, 0x1D17FDC01, 0x1D180DC01, 0x1D181DC01, 0x1D182DC01, 0, 0,
    0x1D185E601, 0x1D186E601, 0x1D187E601, 0x1D188E601, 0x1D189E601, 0x1D18ADC01, 0x1D18BDC01,
    0x1E0004, 0x1D1AAE601, 0x1D1ABE601, 0x1D1ACE601, 0x1D1ADE601, 0xD0006, 0x1D165D801D1B902,
    0x1D165D801D1BA02, 0x2950304, 0x2980304, 0x29B0304, 0x29E0304, 0x810003, 0x1D242E601,
    0x1D243E601, 0x1D244E601, 0x3B0190, 0x410003, 0x420003, 0x430003, 0x440003, 0x450003, 0x460003,
    0x470003, 0x480003, 0x490003, 0x4A0003, 0x4B0003, 0x4C0003, 0x4D0003, 0x4E0003, 0x4F0003,
    0x500003, 0x510003, 0x520003, 0x530003, 0x540003, 0x550003, 0x560003, 0x570003, 0x580003,
    0x590003, 0x5A0003, 0x610003, 0x620003, 0x630003, 0x640003, 0x650003, 0x660003, 0x670003,
    0x680003, 0x690003, 0x6A0003, 0x6B0003, 0x6C0003, 0x6D0003, 0x6E0003, 0x6F0003, 0x700003,
    0x710003, 0x720003, 0x730003, 0x740003, 0x750003, 0x760003, 0x770003, 0x780003, 0x790003,
    0x7A0003, 0x410003, 0x420003, 0x430003, 0x440003, 0x450003, 0x460003, 0x470003, 0x480003,
    0x490003, 0x4A0003, 0x4B0003, 0x4C0003, 0x4D0003, 0x4E0003, 0x4F0003, 0x500003, 0x510003,
    0x520003, 0x530003, 0x540003, 0x550003, 0x560003, 0x570003, 0x580003, 0x590003, 0x5A0003,
    0x610003, 0x620003, 0x630003, 0x640003, 0x650003, 0x660003, 0x670003, 0, 0x690003, 0x6A0003,
    0x6B0003, 0x6C0003, 0x6D0003, 0x6E0003, 0x6F0003, 0x700003, 0x710003, 0x720003, 0x730003,
    0x740003, 0x750003, 0x760003, 0x770003, 0x780003, 0x790003, 0x7A0003, 0x410003, 0x420003,
    0x430003, 0x440003, 0x450003, 0x460003, 0x470003, 0x480003, 0x490003, 0x4A0003, 0x4B0003,
    0x4C0003, 0x4D0003, 0x4E0003, 0x4F0003, 0x500003, 0x510003, 0x520003, 0x530003, 0x540003,
    0x550003, 0x560003, 0x570003, 0x580003, 0x590003, 0x5A0003, 0x610003, 0x620003, 0x630003,
    0x640003, 0x650003, 0x660003, 0x670003, 0x680003, 0x690003, 0x6A0003, 0x6B0003, 0x6C0003,
    0x6D0003, 0x6E0003, 0x6F0003, 0x700003, 0x710003, 0x720003, 0x730003, 0x740003, 0x750003,
    0x760003, 0x770003, 0x780003, 0x790003, 0x7A0003, 0x410003, 0, 0x430003, 0x440003, 0, 0,
    0x470003, 0, 0, 0x4A0003, 0x4B0003, 0, 0, 0x4E0003, 0x4F0003, 0x500003, 0x510003, 0, 0x530003,
    0x540003, 0x550003, 0x560003, 0x570003, 0x580003, 0x590003, 0x5A0003, 0x610003, 0x620003,
    0x630003, 0x640003, 0, 0x660003, 0, 0x680003, 0x690003, 0x6A0003, 0x6B0003, 0x6C0003, 0x6D0003,
    0x6E0003, 0, 0x700003, 0x710003, 0x720003, 0x730003, 0x740003, 0x750003, 0x760003, 0x770003,
    0x780003, 0x790003, 0x7A0003, 0x410003, 0x420003, 0x430003, 0x440003, 0x450003, 0x460003,
    0x470003, 0x480003, 0x490003, 0x4A0003, 0x4B0003, 0x4C0003, 0x4D0003, 0x4E0003, 0x4F0003,
    0x500003, 0x510003, 0x520003, 0x530003, 0x540003, 0x550003, 0x560003, 0x570003, 0x580003,
    0x590003, 0x5A0003, 0x610003, 0x620003, 0x630003, 0x640003, 0x650003, 0x660003, 0x670003,
    0x680003, 0x690003, 0x6A0003, 0x6B0003, 0x6C0003, 0x6D0003, 0x6E0003, 0x6F0003, 0x700003,
    0x710003, 0x720003, 0x730003, 0x740003, 0x750003, 0x760003, 0x770003, 0x780003, 0x790003,
    0x7A0003, 0x410003, 0x420003, 0, 0x440003, 0x450003, 0x460003, 0x470003, 0, 0, 0x4A0003,
    0x4B0003, 0x4C0003, 0x4D0003, 0x4E0003, 0x4F0003, 0x500003, 0x510003, 0, 0x530003, 0x540003,
    0x550003, 0x560003, 0x570003, 0x580003, 0x590003, 0, 0x610003, 0x620003, 0x630003, 0x640003,
    0x650003, 0x660003, 0x670003, 0x680003, 0x690003, 0x6A0003, 0x6B0003, 0x6C0003, 0x6D0003,
    0x6E0003, 0x6F0003, 0x700003, 0x710003, 0x720003, 0x730003, 0x740003, 0x750003, 0x760003,
    0x770003, 0x780003, 0x790003, 0x7A0003, 0x410003, 0x420003, 0, 0x440003, 0x450003, 0x460003,
    0x470003, 0, 0x490003, 0x4A0003, 0x4B0003, 0x4C0003, 0x4D0003, 0, 0x4F0003, 0, 0, 0, 0x530003,
    0x540003, 0x550003, 0x560003, 0x570003, 0x580003, 0x590003, 0, 0x610003, 0x620003, 0x630003,
    0x640003, 0x650003, 0x660003, 0x670003, 0x680003, 0x690003, 0x6A0003, 0x6B0003, 0x6C0003,
    0x6D0003, 0x6E0003, 0x6F0003, 0x700003, 0x710003, 0x720003, 0x730003, 0x740003, 0x750003,
    0x760003, 0x770003, 0x780003, 0x790003, 0x7A0003, 0x410003, 0x420003, 0x430003, 0x440003,
    0x450003, 0x460003, 0x470003, 0x480003, 0x490003, 0x4A0003, 0x4B0003, 0x4C0003, 0x4D0003,
    0x4E0003, 0x4F0003, 0x500003, 0x510003, 0x520003, 0x530003, 0x540003, 0x550003, 0x560003,
    0x570003, 0x580003, 0x590003, 0x5A0003, 0x610003, 0x620003, 0x630003, 0x640003, 0x650003,
    0x660003, 0x670003, 0x680003, 0x690003, 0x6A0003,
];

/// A packed stream of descriptor words.
pub const NFKD_DATA_06: [u64; 964] = [
    0x190, 0x6B0003, 0x6C0003, 0x6D0003, 0x6E0003, 0x6F0003, 0x700003, 0x710003, 0x720003, 0x730003,
    0x740003, 0x750003, 0x760003, 0x770003, 0x780003, 0x790003, 0x7A0003, 0x410003, 0x420003,
    0x430003, 0x440003, 0x450003, 0x460003, 0x470003, 0x480003, 0x490003, 0x4A0003, 0x4B0003,
    0x4C0003, 0x4D0003, 0x4E0003, 0x4F0003, 0x500003, 0x510003, 0x520003, 0x530003, 0x540003,
    0x550003, 0x560003, 0x570003, 0x580003, 0x590003, 0x5A0003, 0x610003, 0x620003, 0x630003,
    0x640003, 0x650003, 0x660003, 0x670003, 0x680003, 0x690003, 0x6A0003, 0x6B0003, 0x6C0003,
    0x6D0003, 0x6E0003, 0x6F0003, 0x700003, 0x710003, 0x720003, 0x730003, 0x740003, 0x750003,
    0x760003, 0x770003, 0x780003, 0x790003, 0x7A0003, 0x410003, 0x420003, 0x430003, 0x440003,
    0x450003, 0x460003, 0x470003, 0x480003, 0x490003, 0x4A0003, 0x4B0003, 0x4C0003, 0x4D0003,
    0x4E0003, 0x4F0003, 0x500003, 0x510003, 0x520003, 0x530003, 0x540003, 0x550003, 0x560003,
    0x570003, 0x580003, 0x590003, 0x5A0003, 0x610003, 0x620003, 0x630003, 0x640003, 0x650003,
    0x660003, 0x670003, 0x680003, 0x690003, 0x6A0003, 0x6B0003, 0x6C0003, 0x6D0003, 0x6E0003,
    0x6F0003, 0x700003, 0x710003, 0x720003, 0x730003, 0x740003, 0x750003, 0x760003, 0x770003,
    0x780003, 0x790003, 0x7A0003, 0x410003, 0x420003, 0x430003, 0x440003, 0x450003, 0x460003,
    0x470003, 0x480003, 0x490003, 0x4A0003, 0x4B0003, 0x4C0003, 0x4D0003, 0x4E0003, 0x4F0003,
    0x500003, 0x510003, 0x520003, 0x530003, 0x540003, 0x550003, 0x560003, 0x570003, 0x580003,
    0x590003, 0x5A0003, 0x610003, 0x620003, 0x630003, 0x640003, 0x650003, 0x660003, 0x670003,
    0x680003, 0x690003, 0x6A0003, 0x6B0003, 0x6C0003, 0x6D0003, 0x6E0003, 0x6F0003, 0x700003,
    0x710003, 0x720003, 0x730003, 0x740003, 0x750003, 0x760003, 0x770003, 0x780003, 0x790003,
    0x7A0003, 0x410003, 0x420003, 0x430003, 0x440003, 0x450003, 0x460003, 0x470003, 0x480003,
    0x490003, 0x4A0003, 0x4B0003, 0x4C0003, 0x4D0003, 0x4E0003, 0x4F0003, 0x500003, 0x510003,
    0x520003, 0x530003, 0x540003, 0x550003, 0x560003, 0x570003, 0x580003, 0x590003, 0x5A0003,
    0x610003, 0x620003, 0x630003, 0x640003, 0x650003, 0x660003, 0x670003, 0x680003, 0x690003,
    0x6A0003, 0x6B0003, 0x6C0003, 0x6D0003, 0x6E0003, 0x6F0003, 0x700003, 0x710003, 0x720003,
    0x730003, 0x740003, 0x750003, 0x760003, 0x770003, 0x780003, 0x790003, 0x7A0003, 0x410003,
    0x420003, 0x430003, 0x440003, 0x450003, 0x460003, 0x470003, 0x480003, 0x490003, 0x4A0003,
    0x4B0003, 0x4C0003, 0x4D0003, 0x4E0003, 0x4F0003, 0x500003, 0x510003, 0x520003, 0x530003,
    0x540003, 0x550003, 0x560003, 0x570003, 0x580003, 0x590003, 0x5A0003, 0x610003, 0x620003,
    0x630003, 0x640003, 0x650003, 0x660003, 0x670003, 0x680003, 0x690003, 0x6A0003, 0x6B0003,
    0x6C0003, 0x6D0003, 0x6E0003, 0x6F0003, 0x700003, 0x710003, 0x720003, 0x730003, 0x740003,
    0x750003, 0x760003, 0x770003, 0x780003, 0x790003, 0x7A0003, 0x1310003, 0x2370003, 0, 0,
    0x3910003, 0x3920003, 0x3930003, 0x3940003, 0x3950003, 0x3960003, 0x3970003, 0x3980003,
    0x3990003, 0x39A0003, 0x39B0003, 0x39C0003, 0x39D0003, 0x39E0003, 0x39F0003, 0x3A00003,
    0x3A10003, 0x3980003, 0x3A30003, 0x3A40003, 0x3A50003, 0x3A60003, 0x3A70003, 0x3A80003,
    0x3A90003, 0x22070003, 0x3B10003, 0x3B20003, 0x3B30003, 0x3B40003, 0x3B50003, 0x3B60003,
    0x3B70003, 0x3B80003, 0x3B90003, 0x3BA0003, 0x3BB0003, 0x3BC0003, 0x3BD0003, 0x3BE0003,
    0x3BF0003, 0x3C00003, 0x3C10003, 0x3C20003, 0x3C30003, 0x3C40003, 0x3C50003, 0x3C60003,
    0x3C70003, 0x3C80003, 0x3C90003, 0x22020003, 0x3B50003, 0x3B80003, 0x3BA0003, 0x3C60003,
    0x3C10003, 0x3C00003, 0x3910003, 0x3920003, 0x3930003, 0x3940003, 0x3950003, 0x3960003,
    0x3970003, 0x3980003, 0x3990003, 0x39A0003, 0x39B0003, 0x39C0003, 0x39D0003, 0x39E0003,
    0x39F0003, 0x3A00003, 0x3A10003, 0x3980003, 0x3A30003, 0x3A40003, 0x3A50003, 0x3A60003,
    0x3A70003, 0x3A80003, 0x3A90003, 0x22070003, 0x3B10003, 0x3B20003, 0x3B30003, 0x3B40003,
    0x3B50003, 0x3B60003, 0x3B70003, 0x3B80003, 0x3B90003, 0x3BA0003, 0x3BB0003, 0x3BC0003,
    0x3BD0003, 0x3BE0003, 0x3BF0003, 0x3C00003, 0x3C10003, 0x3C20003, 0x3C30003, 0x3C40003,
    0x3C50003, 0x3C60003, 0x3C70003, 0x3C80003, 0x3C90003, 0x22020003, 0x3B50003, 0x3B80003,
    0x3BA0003, 0x3C60003, 0x3C10003, 0x3C00003, 0x3910003, 0x3920003, 0x3930003, 0x3940003, 0x10B,
    0x3950003, 0x3960003, 0x3970003, 0x3980003, 0x3990003, 0x39A0003, 0x39B0003, 0x39C0003,
    0x39D0003, 0x39E0003, 0x39F0003, 0x3A00003, 0x3A10003, 0x3980003, 0x3A30003, 0x3A40003,
    0x3A50003, 0x3A60003, 0x3A70003, 0x3A80003, 0x3A90003, 0x22070003, 0x3B10003, 0x3B20003,
    0x3B30003, 0x3B40003, 0x3B50003, 0x3B60003, 0x3B70003, 0x3B80003, 0x3B90003, 0x3BA0003,
    0x3BB0003, 0x3BC0003, 0x3BD0003, 0x3BE0003, 0x3BF0003, 0x3C00003, 0x3C10003, 0x3C20003,
    0x3C30003, 0x3C40003, 0x3C50003, 0x3C60003, 0x3C70003, 0x3C80003, 0x3C90003, 0x22020003,
    0x3B50003, 0x3B80003, 0x3BA0003, 0x3C60003, 0x3C10003, 0x3C00003, 0x3910003, 0x3920003,
    0x3930003, 0x3940003, 0x3950003, 0x3960003, 0x3970003, 0x3980003, 0x3990003, 0x39A0003,
    0x39B0003, 0x39C0003, 0x39D0003, 0x39E0003, 0x39F0003, 0x3A00003, 0x3A10003, 0x3980003,
    0x3A30003, 0x3A40003, 0x3A50003, 0x3A60003, 0x3A70003, 0x3A80003, 0x3A90003, 0x22070003,
    0x3B10003, 0x3B20003, 0x3B30003, 0x3B40003, 0x3B50003, 0x3B60003, 0x3B70003, 0x3B80003,
    0x3B90003, 0x3BA0003, 0x3BB0003, 0x3BC0003, 0x3BD0003, 0x3BE0003, 0x3BF0003, 0x3C00003,
    0x3C10003, 0x3C20003, 0x3C30003, 0x3C40003, 0x3C50003, 0x3C60003, 0x3C70003, 0x3C80003,
    0x3C90003, 0x22020003, 0x3B50003, 0x3B80003, 0x3BA0003, 0x3C60003, 0x3C10003, 0x3C00003,
    0x3910003, 0x3920003, 0x3930003, 0x3940003, 0x3950003, 0x3960003, 0x3970003, 0x3980003,
    0x3990003, 0x39A0003, 0x39B0003, 0x39C0003, 0x39D0003, 0x39E0003, 0x39F0003, 0x3A00003,
    0x3A10003, 0x3980003, 0x3A30003, 0x3A40003, 0x3A50003, 0x3A60003, 0x3A70003, 0x3A80003,
    0x3A90003, 0x22070003, 0x3B10003, 0x3B20003, 0x3B30003, 0x3B40003, 0x3B50003, 0x3B60003,
    0x3B70003, 0x3B80003, 0x3B90003, 0x3BA0003, 0x3BB0003, 0x3BC0003, 0x3BD0003, 0x3BE0003,
    0x3BF0003, 0x3C00003, 0x3C10003, 0x3C20003, 0x3C30003, 0x3C40003, 0x3C50003, 0x3C60003,
    0x3C70003, 0x3C80003, 0x3C90003, 0x22020003, 0x3B50003, 0x3B80003, 0x3BA0003, 0x3C60003,
    0x3C10003, 0x3C00003, 0x3DC0003, 0x3DD0003, 0, 0, 0x300003, 0x310003, 0x320003, 0x330003,
    0x340003, 0x350003, 0x360003, 0x370003, 0x380003, 0x390003, 0x300003, 0x310003, 0x320003,
    0x330003, 0x340003, 0x350003, 0x360003, 0x370003, 0x380003, 0x390003, 0x300003, 0x310003,
    0x320003, 0x330003, 0x340003, 0x350003, 0x360003, 0x370003, 0x380003, 0x390003, 0x300003,
    0x310003, 0x320003, 0x330003, 0x340003, 0x350003, 0x360003, 0x370003, 0x380003, 0x390003,
    0x300003, 0x310003, 0x320003, 0x330003, 0x340003, 0x350003, 0x360003, 0x370003, 0x380003,
    0x390003, 0x1E000E601, 0x1E001E601, 0x1E002E601, 0x1E003E601, 0x1E004E601, 0x1E005E601,
    0x1E006E601, 0, 0x1E008E601, 0x1E009E601, 0x1E00AE601, 0x1E00BE601, 0x1E00CE601, 0x1E00DE601,
    0x1E00EE601, 0x1E00FE601, 0x1E010E601, 0x1E011E601, 0x1E012E601, 0x1E013E601, 0x1E014E601,
    0x1E015E601, 0x1E016E601, 0x1E017E601, 0x1E018E601, 0, 0, 0x1E01BE601, 0x1E01CE601, 0x1E01DE601,
    0x1E01EE601, 0x1E01FE601, 0x1E020E601, 0x1E021E601, 0, 0x1E023E601, 0x1E024E601, 0, 0x1E026E601,
    0x1E027E601, 0x1E028E601, 0x1E029E601, 0x1E02AE601, 0x850007, 0x1E130E601, 0x1E131E601,
    0x1E132E601, 0x1E133E601, 0x1E134E601, 0x1E135E601, 0x1E136E601, 0x770001, 0x1E2AEE601,
    0x3D0004, 0x1E2ECE601, 0x1E2EDE601, 0x1E2EEE601, 0x1E2EFE601, 0x600007, 0x1E8D0DC01,
    0x1E8D1DC01, 0x1E8D2DC01, 0x1E8D3DC01, 0x1E8D4DC01, 0x1E8D5DC01, 0x1E8D6DC01, 0x6D0007,
    0x1E944E601, 0x1E945E601, 0x1E946E601, 0x1E947E601, 0x1E948E601, 0x1E949E601, 0x1E94A0701,
    0x35003C, 0x6270003, 0x6280003, 0x62C0003, 0x62F0003, 0, 0x6480003, 0x6320003, 0x62D0003,
    0x6370003, 0x64A0003, 0x6430003, 0x6440003, 0x6450003, 0x6460003, 0x6330003, 0x6390003,
    0x6410003, 0x6350003, 0x6420003, 0x6310003, 0x6340003, 0x62A0003, 0x62B0003, 0x62E0003,
    0x6300003, 0x6360003, 0x6380003, 0x63A0003, 0x66E0003, 0x6BA0003, 0x6A10003, 0x66F0003, 0,
    0x6280003, 0x62C0003, 0, 0x6470003, 0, 0, 0x62D0003, 0, 0x64A0003, 0x6430003, 0x6440003,
    0x6450003, 0x6460003, 0x6330003, 0x6390003, 0x6410003, 0x6350003, 0x6420003, 0, 0x6340003,
    0x62A0003, 0x62B0003, 0x62E0003, 0, 0x6360003, 0, 0x63A0003, 0x60001, 0x62C0003, 0x40055,
    0x62D0003, 0, 0x64A0003, 0, 0x6440003, 0, 0x6460003, 0x6330003, 0x6390003, 0, 0x6350003,
    0x6420003, 0, 0x6340003, 0, 0, 0x62E0003, 0, 0x6360003, 0, 0x63A0003, 0, 0x6BA0003, 0,
    0x66F0003, 0, 0x6280003, 0x62C0003, 0, 0x6470003, 0, 0, 0x62D0003, 0x6370003, 0x64A0003,
    0x6430003, 0, 0x6450003, 0x6460003, 0x6330003, 0x6390003, 0x6410003, 0x6350003, 0x6420003, 0,
    0x6340003, 0x62A0003, 0x62B0003, 0x62E0003, 0, 0x6360003, 0x6380003, 0x63A0003, 0x66E0003, 0,
    0x6A10003, 0, 0x6270003, 0x6280003, 0x62C0003, 0x62F0003, 0x6470003, 0x6480003, 0x6320003,
    0x62D0003, 0x6370003, 0x64A0003, 0, 0x6440003, 0x6450003, 0x6460003, 0x6330003, 0x6390003,
    0x6410003, 0x6350003, 0x6420003, 0x6310003, 0x6340003, 0x62A0003, 0x62B0003, 0x62E0003,
    0x6300003, 0x6360003, 0x6380003, 0x63A0003, 0x5001B, 0x6280003, 0x62C0003, 0x62F0003, 0,
    0x6480003, 0x6320003, 0x62D0003, 0x6370003, 0x64A0003, 0, 0x6440003, 0x6450003, 0x6460003,
    0x6330003, 0x6390003, 0x6410003, 0x6350003, 0x6420003, 0x6310003, 0x6340003, 0x62A0003,
    0x62B0003, 0x62E0003, 0x6300003, 0x6360003, 0x6380003, 0x63A0003, 0x44000B, 0x2E0000003002,
    0x2C0000003002, 0x2C0000003102, 0x2C0000003202, 0x2C0000003302, 0x2C0000003402, 0x2C0000003502,
    0x2C0000003602, 0x2C0000003702, 0x2C0000003802, 0x2C0000003902, 0x50040, 0x29000041000028,
    0x29000042000028, 0x29000043000028, 0x29000044000028, 0x29000045000028, 0x29000046000028,
    0x29000047000028, 0x29000048000028, 0x29000049000028, 0x2900004A000028, 0x2900004B000028,
    0x2900004C000028, 0x2900004D000028, 0x2900004E000028, 0x2900004F000028, 0x29000050000028,
    0x29000051000028, 0x29000052000028, 0x29000053000028, 0x29000054000028, 0x29000055000028,
    0x29000056000028, 0x29000057000028, 0x29000058000028, 0x29000059000028, 0x2900005A000028,
    0x3015000053003014, 0x430003, 0x520003, 0x440000004302, 0x5A0000005702, 0, 0x410003, 0x420003,
    0x430003, 0x440003, 0x450003, 0x460003, 0x470003, 0x480003, 0x490003, 0x4A0003, 0x4B0003,
    0x4C0003, 0x4D0003, 0x4E0003, 0x4F0003, 0x500003, 0x510003, 0x520003, 0x530003, 0x540003,
    0x550003, 0x560003, 0x570003, 0x580003, 0x590003, 0x5A0003, 0x560000004802, 0x560000004D02,
    0x440000005302, 0x530000005302, 0x56000050000050, 0x430000005702, 0x1A0003, 0x430000004D02,
    0x440000004D02, 0x520000004D02, 0x230001, 0x4A0000004402, 0x6F0003, 0x304B0000307B02,
    0x30B3000030B302, 0x30B50003,
];

/// A packed stream of descriptor words.
pub const NFKD_DATA_07: [u64; 614] = [
    0xD002C, 0x624B0003, 0x5B570003, 0x53CC0003, 0x3099080030C602, 0x4E8C0003, 0x591A0003,
    0x89E30003, 0x59290003, 0x4EA40003, 0x66200003, 0x71210003, 0x65990003, 0x524D0003, 0x5F8C0003,
    0x518D0003, 0x65B00003, 0x521D0003, 0x7D420003, 0x751F0003, 0x8CA90003, 0x58F00003, 0x54390003,
    0x6F140003, 0x62950003, 0x63550003, 0x4E000003, 0x4E090003, 0x904A0003, 0x5DE60003, 0x4E2D0003,
    0x53F30003, 0x63070003, 0x8D700003, 0x62530003, 0x79810003, 0x7A7A0003, 0x54080003, 0x6E800003,
    0x67090003, 0x67080003, 0x75330003, 0x52720003, 0x55B60003, 0x914D0003, 0x40009,
    0x301500672C003014, 0x3015004E09003014, 0x3015004E8C003014, 0x3015005B89003014,
    0x30150070B9003014, 0x3015006253003014, 0x30150076D7003014, 0x30150052DD003014,
    0x3015006557003014, 0x70002, 0x5F970003, 0x53EF0003, 0x9E000A, 0x300003, 0x310003, 0x320003,
    0x330003, 0x340003, 0x350003, 0x360003, 0x370003, 0x380003, 0x390003, 0x60190, 0x4E3D0003,
    0x4E380003, 0x4E410003, 0x201220003, 0x4F600003, 0x4FAE0003, 0x4FBB0003, 0x50020003, 0x507A0003,
    0x50990003, 0x50E70003, 0x50CF0003, 0x349E0003, 0x2063A0003, 0x514D0003, 0x51540003, 0x51640003,
    0x51770003, 0x2051C0003, 0x34B90003, 0x51670003, 0x518D0003, 0x2054B0003, 0x51970003,
    0x51A40003, 0x4ECC0003, 0x51AC0003, 0x51B50003, 0x291DF0003, 0x51F50003, 0x52030003, 0x34DF0003,
    0x523B0003, 0x52460003, 0x52720003, 0x52770003, 0x35150003, 0x52C70003, 0x52C90003, 0x52E40003,
    0x52FA0003, 0x53050003, 0x53060003, 0x53170003, 0x53490003, 0x53510003, 0x535A0003, 0x53730003,
    0x537D0003, 0x537F0003, 0x537F0003, 0x537F0003, 0x20A2C0003, 0x70700003, 0x53CA0003, 0x53DF0003,
    0x20B630003, 0x53EB0003, 0x53F10003, 0x54060003, 0x549E0003, 0x54380003, 0x54480003, 0x54680003,
    0x54A20003, 0x54F60003, 0x55100003, 0x55530003, 0x55630003, 0x55840003, 0x55840003, 0x55990003,
    0x55AB0003, 0x55B30003, 0x55C20003, 0x57160003, 0x56060003, 0x57170003, 0x56510003, 0x56740003,
    0x52070003, 0x58EE0003, 0x57CE0003, 0x57F40003, 0x580D0003, 0x578B0003, 0x58320003, 0x58310003,
    0x58AC0003, 0x214E40003, 0x58F20003, 0x58F70003, 0x59060003, 0x591A0003, 0x59220003, 0x59620003,
    0x216A80003, 0x216EA0003, 0x59EC0003, 0x5A1B0003, 0x5A270003, 0x59D80003, 0x5A660003,
    0x36EE0003, 0x36FC0003, 0x5B080003, 0x5B3E0003, 0x5B3E0003, 0x219C80003, 0x5BC30003, 0x5BD80003,
    0x5BE70003, 0x5BF30003, 0x21B180003, 0x5BFF0003, 0x5C060003, 0x5F530003, 0x5C220003, 0x37810003,
    0x5C600003, 0x5C6E0003, 0x5CC00003, 0x5C8D0003, 0x21DE40003, 0x5D430003, 0x21DE60003,
    0x5D6E0003, 0x5D6B0003, 0x5D7C0003, 0x5DE10003, 0x5DE20003, 0x382F0003, 0x5DFD0003, 0x5E280003,
    0x5E3D0003, 0x5E690003, 0x38620003, 0x221830003, 0x387C0003, 0x5EB00003, 0x5EB30003, 0x5EB60003,
    0x5ECA0003, 0x2A3920003, 0x5EFE0003, 0x223310003, 0x223310003, 0x82010003, 0x5F220003,
    0x5F220003, 0x38C70003, 0x232B80003, 0x261DA0003, 0x5F620003, 0x5F6B0003, 0x38E30003,
    0x5F9A0003, 0x5FCD0003, 0x5FD70003, 0x5FF90003, 0x60810003, 0x393A0003, 0x391C0003, 0x60940003,
    0x226D40003, 0x60C70003, 0x61480003, 0x614C0003, 0x614E0003, 0x614C0003, 0x617A0003, 0x618E0003,
    0x61B20003, 0x61A40003, 0x61AF0003, 0x61DE0003, 0x61F20003, 0x61F60003, 0x62100003, 0x621B0003,
    0x625D0003, 0x62B10003, 0x62D40003, 0x63500003, 0x22B0C0003, 0x633D0003, 0x62FC0003, 0x63680003,
    0x63830003, 0x63E40003, 0x22BF10003, 0x64220003, 0x63C50003, 0x63A90003, 0x3A2E0003, 0x64690003,
    0x647E0003, 0x649D0003, 0x64770003, 0x3A6C0003, 0x654F0003, 0x656C0003, 0x2300A0003, 0x65E30003,
    0x66F80003, 0x66490003, 0x3B190003, 0x66910003, 0x3B080003, 0x3AE40003, 0x51920003, 0x51950003,
    0x67000003, 0x669C0003, 0x80AD0003, 0x43D90003, 0x67170003, 0x671B0003, 0x67210003, 0x675E0003,
    0x67530003, 0x233C30003, 0x3B490003, 0x67FA0003, 0x67850003, 0x68520003, 0x68850003,
    0x2346D0003, 0x688E0003, 0x681F0003, 0x69140003, 0x3B9D0003, 0x69420003, 0x69A30003, 0x69EA0003,
    0x6AA80003, 0x236A30003, 0x6ADB0003, 0x3C180003, 0x6B210003, 0x238A70003, 0x6B540003,
    0x3C4E0003, 0x6B720003, 0x6B9F0003, 0x6BBA0003, 0x6BBB0003, 0x23A8D0003, 0x21D0B0003,
    0x23AFA0003, 0x6C4E0003, 0x23CBC0003, 0x6CBF0003, 0x6CCD0003, 0x6C670003, 0x6D160003,
    0x6D3E0003, 0x6D770003, 0x6D410003, 0x6D690003, 0x6D780003, 0x6D850003, 0x23D1E0003, 0x6D340003,
    0x6E2F0003, 0x6E6E0003, 0x3D330003, 0x6ECB0003, 0x6EC70003, 0x23ED10003, 0x6DF90003, 0x6F6E0003,
    0x23F5E0003, 0x23F8E0003, 0x6FC60003, 0x70390003, 0x701E0003, 0x701B0003, 0x3D960003,
    0x704A0003, 0x707D0003, 0x70770003, 0x70AD0003, 0x205250003, 0x71450003, 0x242630003,
    0x719C0003, 0x243AB0003, 0x72280003, 0x72350003, 0x72500003, 0x246080003, 0x72800003,
    0x72950003, 0x247350003, 0x248140003, 0x737A0003, 0x738B0003, 0x3EAC0003, 0x73A50003,
    0x3EB80003, 0x3EB80003, 0x74470003, 0x745C0003, 0x74710003, 0x74850003, 0x74CA0003, 0x3F1B0003,
    0x75240003, 0x24C360003, 0x753E0003, 0x24C920003, 0x75700003, 0x2219F0003, 0x76100003,
    0x24FA10003, 0x24FB80003, 0x250440003, 0x3FFC0003, 0x40080003, 0x76F40003, 0x250F30003,
    0x250F20003, 0x251190003, 0x251330003, 0x771E0003, 0x771F0003, 0x771F0003, 0x774A0003,
    0x40390003, 0x778B0003, 0x40460003, 0x40960003, 0x2541D0003, 0x784E0003, 0x788C0003, 0x78CC0003,
    0x40E30003, 0x256260003, 0x79560003, 0x2569A0003, 0x256C50003, 0x798F0003, 0x79EB0003,
    0x412F0003, 0x7A400003, 0x7A4A0003, 0x7A4F0003, 0x2597C0003, 0x25AA70003, 0x25AA70003,
    0x7AEE0003, 0x42020003, 0x25BAB0003, 0x7BC60003, 0x7BC90003, 0x42270003, 0x25C800003,
    0x7CD20003, 0x42A00003, 0x7CE80003, 0x7CE30003, 0x7D000003, 0x25F860003, 0x7D630003, 0x43010003,
    0x7DC70003, 0x7E020003, 0x7E450003, 0x43340003, 0x262280003, 0x262470003, 0x43590003,
    0x262D90003, 0x7F7A0003, 0x2633E0003, 0x7F950003, 0x7FFA0003, 0x80050003, 0x264DA0003,
    0x265230003, 0x80600003, 0x265A80003, 0x80700003, 0x2335F0003, 0x43D50003, 0x80B20003,
    0x81030003, 0x440B0003, 0x813E0003, 0x5AB50003, 0x267A70003, 0x267B50003, 0x233930003,
    0x2339C0003, 0x82010003, 0x82040003, 0x8F9E0003, 0x446B0003, 0x82910003, 0x8E, 0x828B0003,
    0x829D0003, 0x52B30003, 0x82B10003, 0x82B30003, 0x82BD0003, 0x82E60003, 0x26B3C0003, 0x82E50003,
    0x831D0003, 0x83630003, 0x83AD0003, 0x83230003, 0x83BD0003, 0x83E70003, 0x84570003, 0x83530003,
    0x83CA0003, 0x83CC0003, 0x83DC0003, 0x26C360003, 0x26D6B0003, 0x26CD50003, 0x452B0003,
    0x84F10003, 0x84F30003, 0x85160003, 0x273CA0003, 0x85640003, 0x26F2C0003, 0x455D0003,
    0x45610003, 0x26FB10003, 0x270D20003, 0x456B0003, 0x86500003, 0x865C0003, 0x86670003,
    0x86690003, 0x86A90003, 0x86880003, 0x870E0003, 0x86E20003, 0x87790003, 0x87280003, 0x876B0003,
    0x87860003, 0x45D70003, 0x87E10003, 0x88010003, 0x45F90003, 0x88600003, 0x88630003, 0x276670003,
    0x88D70003, 0x88DE0003, 0x46350003, 0x88FA0003, 0x34BB0003, 0x278AE0003, 0x279660003,
    0x46BE0003, 0x46C70003, 0x8AA00003, 0x8AED0003, 0x8B8A0003, 0x8C550003, 0x27CA80003, 0x8CAB0003,
    0x8CC10003, 0x8D1B0003, 0x8D770003, 0x27F2F0003, 0x208040003, 0x8DCB0003, 0x8DBC0003,
    0x8DF00003, 0x208DE0003, 0x8ED40003, 0x8F380003, 0x285D20003, 0x285ED0003, 0x90940003,
    0x90F10003, 0x91110003, 0x2872E0003, 0x911B0003, 0x92380003, 0x92D70003, 0x92D80003, 0x927C0003,
    0x93F90003, 0x94150003, 0x28BFA0003, 0x958B0003, 0x49950003, 0x95B70003, 0x28D770003,
    0x49E60003, 0x96C30003, 0x5DB20003, 0x97230003, 0x291450003, 0x2921A0003, 0x4A6E0003,
    0x4A760003, 0x97E00003, 0x2940A0003, 0x4AB20003, 0x294960003, 0x980B0003, 0x980B0003,
    0x98290003, 0x295B60003, 0x98E20003, 0x4B330003, 0x99290003, 0x99A70003, 0x99C20003, 0x99FE0003,
    0x4BCE0003, 0x29B300003, 0x9B120003, 0x9C400003, 0x9CFD0003, 0x4CCE0003, 0x4CED0003, 0x9D670003,
    0x2A0CE0003, 0x4CF80003, 0x2A1050003, 0x2A20E0003, 0x2A2910003, 0x9EBB0003, 0x4D560003,
    0x9EF90003, 0x9EFE0003, 0x9F050003, 0x9F0F0003, 0x9F160003, 0x9F3B0003, 0x2A6000003, 0x620000,
];

/// Packed codepoints of the decompositions stored out of line.
pub const NFKD_EXPANSIONS_00: [u32; 673] = [
    0x300E6, 0x301E6, 0x313E6, 0x308E6, 0x301E6, 0xF7181, 0xF7282, 0xF7181, 0xF7484, 0xF7181,
    0xF8082, 0x3B100, 0x313E6, 0x300E6, 0x345F0, 0x3B100, 0x314E6, 0x300E6, 0x345F0, 0x3B100,
    0x313E6, 0x301E6, 0x345F0, 0x3B100, 0x314E6, 0x301E6, 0x345F0, 0x3B100, 0x313E6, 0x342E6,
    0x345F0, 0x3B100, 0x314E6, 0x342E6, 0x345F0, 0x39100, 0x313E6, 0x300E6, 0x345F0, 0x39100,
    0x314E6, 0x300E6, 0x345F0, 0x39100, 0x313E6, 0x301E6, 0x345F0, 0x39100, 0x314E6, 0x301E6,
    0x345F0, 0x39100, 0x313E6, 0x342E6, 0x345F0, 0x39100, 0x314E6, 0x342E6, 0x345F0, 0x3B700,
    0x313E6, 0x300E6, 0x345F0, 0x3B700, 0x314E6, 0x300E6, 0x345F0, 0x3B700, 0x313E6, 0x301E6,
    0x345F0, 0x3B700, 0x314E6, 0x301E6, 0x345F0, 0x3B700, 0x313E6, 0x342E6, 0x345F0, 0x3B700,
    0x314E6, 0x342E6, 0x345F0, 0x39700, 0x313E6, 0x300E6, 0x345F0, 0x39700, 0x314E6, 0x300E6,
    0x345F0, 0x39700, 0x313E6, 0x301E6, 0x345F0, 0x39700, 0x314E6, 0x301E6, 0x345F0, 0x39700,
    0x313E6, 0x342E6, 0x345F0, 0x39700, 0x314E6, 0x342E6, 0x345F0, 0x3C900, 0x313E6, 0x300E6,
    0x345F0, 0x3C900, 0x314E6, 0x300E6, 0x345F0, 0x3C900, 0x313E6, 0x301E6, 0x345F0, 0x3C900,
    0x314E6, 0x301E6, 0x345F0, 0x3C900, 0x313E6, 0x342E6, 0x345F0, 0x3C900, 0x314E6, 0x342E6,
    0x345F0, 0x3A900, 0x313E6, 0x300E6, 0x345F0, 0x3A900, 0x314E6, 0x300E6, 0x345F0, 0x3A900,
    0x313E6, 0x301E6, 0x345F0, 0x3A900, 0x314E6, 0x301E6, 0x345F0, 0x3A900, 0x313E6, 0x342E6,
    0x345F0, 0x3A900, 0x314E6, 0x342E6, 0x345F0, 0x203200, 0x203200, 0x203200, 0x203200, 0x3100,
    0x204400, 0x3100, 0x3000, 0x5600, 0x4900, 0x4900, 0x4900, 0x7600, 0x6900, 0x6900, 0x6900,
    0x2800, 0x3100, 0x3000, 0x2900, 0x2800, 0x3100, 0x3100, 0x2900, 0x2800, 0x3100, 0x3200, 0x2900,
    0x2800, 0x3100, 0x3300, 0x2900, 0x2800, 0x3100, 0x3400, 0x2900, 0x2800, 0x3100, 0x3500, 0x2900,
    0x2800, 0x3100, 0x3600, 0x2900, 0x2800, 0x3100, 0x3700, 0x2900, 0x2800, 0x3100, 0x3800, 0x2900,
    0x2800, 0x3100, 0x3900, 0x2900, 0x2800, 0x3200, 0x3000, 0x2900, 0x222B00, 0x222B00, 0x222B00,
    0x222B00, 0x2800, 0x110000, 0x116100, 0x2900, 0x2800, 0x110200, 0x116100, 0x2900, 0x2800,
    0x110300, 0x116100, 0x2900, 0x2800, 0x110500, 0x116100, 0x2900, 0x2800, 0x110600, 0x116100,
    0x2900, 0x2800, 0x110700, 0x116100, 0x2900, 0x2800, 0x110900, 0x116100, 0x2900, 0x2800,
    0x110B00, 0x116100, 0x2900, 0x2800, 0x110C00, 0x116100, 0x2900, 0x2800, 0x110E00, 0x116100,
    0x2900, 0x2800, 0x110F00, 0x116100, 0x2900, 0x2800, 0x111000, 0x116100, 0x2900, 0x2800,
    0x111100, 0x116100, 0x2900, 0x2800, 0x111200, 0x116100, 0x2900, 0x2800, 0x110C00, 0x116E00,
    0x2900, 0x2800, 0x110B00, 0x116900, 0x110C00, 0x116500, 0x11AB00, 0x2900, 0x2800, 0x110B00,
    0x116900, 0x111200, 0x116E00, 0x2900, 0x110E00, 0x116100, 0x11B700, 0x110000, 0x116900,
    0x110C00, 0x116E00, 0x110B00, 0x117400, 0x30A200, 0x30CF00, 0x309A08, 0x30FC00, 0x30C800,
    0x30A200, 0x30EB00, 0x30D500, 0x30A100, 0x30A200, 0x30F300, 0x30D800, 0x309A08, 0x30A200,
    0x30A400, 0x30CB00, 0x30F300, 0x30AF00, 0x309908, 0x30A800, 0x30B900, 0x30AF00, 0x30FC00,
    0x30C800, 0x309908, 0x30A800, 0x30FC00, 0x30AB00, 0x30FC00, 0x30AB00, 0x30E900, 0x30C300,
    0x30C800, 0x30AB00, 0x30ED00, 0x30EA00, 0x30FC00, 0x30AB00, 0x309908, 0x30ED00, 0x30F300,
    0x30AB00, 0x309908, 0x30F300, 0x30DE00, 0x30AD00, 0x309908, 0x30AB00, 0x309908, 0x30AD00,
    0x309908, 0x30CB00, 0x30FC00, 0x30AD00, 0x30E500, 0x30EA00, 0x30FC00, 0x30AD00, 0x309908,
    0x30EB00, 0x30BF00, 0x309908, 0x30FC00, 0x30AD00, 0x30ED00, 0x30AF00, 0x309908, 0x30E900,
    0x30E000, 0x30AD00, 0x30ED00, 0x30E100, 0x30FC00, 0x30C800, 0x30EB00, 0x30AD00, 0x30ED00,
    0x30EF00, 0x30C300, 0x30C800, 0x30AF00, 0x309908, 0x30E900, 0x30E000, 0x30AF00, 0x309908,
    0x30E900, 0x30E000, 0x30C800, 0x30F300, 0x30AF00, 0x30EB00, 0x30BB00, 0x309908, 0x30A400,
    0x30ED00, 0x30AF00, 0x30ED00, 0x30FC00, 0x30CD00, 0x30B300, 0x30FC00, 0x30DB00, 0x309A08,
    0x30B500, 0x30A400, 0x30AF00, 0x30EB00, 0x30B500, 0x30F300, 0x30C100, 0x30FC00, 0x30E000,
    0x30B700, 0x30EA00, 0x30F300, 0x30AF00, 0x309908, 0x30BF00, 0x309908, 0x30FC00, 0x30B900,
    0x30CF00, 0x309A08, 0x30FC00, 0x30BB00, 0x30F300, 0x30C800, 0x30CF00, 0x309A08, 0x30FC00,
    0x30C400, 0x30CF00, 0x309908, 0x30FC00, 0x30EC00, 0x30EB00, 0x30D200, 0x309A08, 0x30A200,
    0x30B900, 0x30C800, 0x30EB00, 0x30D200, 0x309A08, 0x30AF00, 0x30EB00, 0x30D500, 0x30A100,
    0x30E900, 0x30C300, 0x30C800, 0x309908, 0x30D500, 0x30A300, 0x30FC00, 0x30C800, 0x30D500,
    0x309908, 0x30C300, 0x30B700, 0x30A700, 0x30EB00, 0x30D800, 0x30AF00, 0x30BF00, 0x30FC00,
    0x30EB00, 0x30D800, 0x309A08, 0x30CB00, 0x30D200, 0x30D800, 0x309A08, 0x30F300, 0x30B900,
    0x30D800, 0x309A08, 0x30FC00, 0x30B700, 0x309908, 0x30D800, 0x309908, 0x30FC00, 0x30BF00,
    0x30DB00, 0x309A08, 0x30A400, 0x30F300, 0x30C800, 0x30DB00, 0x309908, 0x30EB00, 0x30C800,
    0x30DB00, 0x309A08, 0x30F300, 0x30C800, 0x309908, 0x30DE00, 0x30A400, 0x30AF00, 0x30ED00,
    0x30DE00, 0x30F300, 0x30B700, 0x30E700, 0x30F300, 0x30DF00, 0x30AF00, 0x30ED00, 0x30F300,
    0x30DF00, 0x30EA00, 0x30CF00, 0x309908, 0x30FC00, 0x30EB00, 0x30E100, 0x30AB00, 0x309908,
    0x30C800, 0x30F300, 0x30E100, 0x30FC00, 0x30C800, 0x30EB00, 0x30E400, 0x30FC00, 0x30C800,
    0x309908, 0x30EA00, 0x30C300, 0x30C800, 0x30EB00, 0x30EB00, 0x30D200, 0x309A08, 0x30FC00,
    0x30EB00, 0x30FC00, 0x30D500, 0x309908, 0x30EB00, 0x30EC00, 0x30F300, 0x30C800, 0x30B100,
    0x309908, 0x30F300, 0x682A00, 0x5F0F00, 0x4F1A00, 0x793E00, 0x6B00, 0x6300, 0x6100, 0x6C00,
    0x6D00, 0x221500, 0x7300, 0x3200, 0x7200, 0x6100, 0x6400, 0x221500, 0x7300, 0x7200, 0x6100,
    0x6400, 0x221500, 0x7300, 0x3200, 0x6100, 0x2E00, 0x6D00, 0x2E00, 0x4300, 0x221500, 0x6B00,
    0x6700, 0x7000, 0x2E00, 0x6D00, 0x2E00, 0x62700, 0x64400, 0x64400, 0x64700, 0x62700, 0x64300,
    0x62800, 0x63100, 0x64500, 0x62D00, 0x64500, 0x62F00, 0x63500, 0x64400, 0x63900, 0x64500,
    0x63100, 0x63300, 0x64800, 0x64400, 0x63900, 0x64400, 0x64A00, 0x64700, 0x64800, 0x63300,
    0x64400, 0x64500, 0x63500, 0x64400, 0x64900, 0x2000, 0x62700, 0x64400, 0x64400, 0x64700, 0x2000,
    0x63900, 0x64400, 0x64A00, 0x64700, 0x2000, 0x64800, 0x63300, 0x64400, 0x64500, 0x62C00,
    0x64400, 0x2000, 0x62C00, 0x64400, 0x62700, 0x64400, 0x64700, 0x63100, 0x6CC00, 0x62700,
    0x64400, 0x309908, 0x309A08, 0x1D15800, 0x1D165D8, 0x1D16ED8, 0x1D15800, 0x1D165D8, 0x1D16FD8,
    0x1D15800, 0x1D165D8, 0x1D170D8, 0x1D15800, 0x1D165D8, 0x1D171D8, 0x1D15800, 0x1D165D8,
    0x1D172D8, 0x1D1B900, 0x1D165D8, 0x1D16ED8, 0x1D1BA00, 0x1D165D8, 0x1D16ED8, 0x1D1B900,
    0x1D165D8, 0x1D16FD8, 0x1D1BA00, 0x1D165D8, 0x1D16FD8,
];

/// The page index of NFKD.
pub open spec fn nfkd_index() -> Seq<u8> {
    unfold_runs(NFKD_INDEX_00@, 0)
}

/// The descriptor words of NFKD.
pub open spec fn nfkd_data() -> Seq<u64> {
    expand(NFKD_DATA_00@, 0) + expand(NFKD_DATA_01@, 0) + expand(NFKD_DATA_02@, 0)
        + expand(NFKD_DATA_03@, 0) + expand(NFKD_DATA_04@, 0) + expand(NFKD_DATA_05@, 0)
        + expand(NFKD_DATA_06@, 0) + expand(NFKD_DATA_07@, 0)
}

/// The expansions of NFKD.
pub open spec fn nfkd_expansions() -> Seq<u32> {
    NFKD_EXPANSIONS_00@
}

/// The NFKD tables.
pub open spec fn nfkd_tables() -> Tables {
    Tables {
        index: nfkd_index(),
        data: nfkd_data(),
        expansions: nfkd_expansions(),
        continuous_block_end: 0xFFF,
    }
}

fn build_index() -> (r: Vec<u8>)
    ensures
        r@ == nfkd_index(),
{
    let mut r: Vec<u8> = Vec::with_capacity(1525);
    unfold_runs_into(&mut r, &NFKD_INDEX_00);
    r
}

fn build_data() -> (r: Vec<u64>)
    ensures
        r@ == nfkd_data(),
{
    let mut r: Vec<u64> = Vec::with_capacity(21248);
    expand_into(&mut r, &NFKD_DATA_00);
    expand_into(&mut r, &NFKD_DATA_01);
    expand_into(&mut r, &NFKD_DATA_02);
    expand_into(&mut r, &NFKD_DATA_03);
    expand_into(&mut r, &NFKD_DATA_04);
    expand_into(&mut r, &NFKD_DATA_05);
    expand_into(&mut r, &NFKD_DATA_06);
    expand_into(&mut r, &NFKD_DATA_07);
    r
}

fn build_expansions() -> (r: Vec<u32>)
    ensures
        r@ == nfkd_expansions(),
{
    let mut r: Vec<u32> = Vec::with_capacity(673);
    extend_from(&mut r, &NFKD_EXPANSIONS_00);
    r
}

/// The data of NFKD normalization.
pub fn nfkd() -> (r: DecompositionData)
    ensures
        r@ == nfkd_tables(),
{
    DecompositionData {
        index: build_index(),
        data: build_data(),
        expansions: build_expansions(),
        continuous_block_end: 0xFFF,
    }
}

impl DecomposingNormalizer {
    /// The NFKD normalizer: compatibility decomposition.
    pub fn new_nfkd() -> (r: Self)
        requires
            nfkd_tables().well_formed(),
        ensures
            r@ == nfkd_tables(),
            r.wf(),
    {
        DecomposingNormalizer::from_baked(nfkd())
    }
}

/// The NFKD normalizer: compatibility decomposition.
pub fn new_nfkd() -> (r: DecomposingNormalizer)
    requires
        nfkd_tables().well_formed(),
    ensures
        r@ == nfkd_tables(),
        r.wf(),
{
    DecomposingNormalizer::new_nfkd()
}

/// The NFKD normalizer: compatibility decomposition.
pub fn nfkd_normalizer() -> (r: DecomposingNormalizer)
    requires
        nfkd_tables().well_formed(),
    ensures
        r@ == nfkd_tables(),
        r.wf(),
{
    DecomposingNormalizer::new_nfkd()
}

/// The NFKD normalizer, made after its tables have been found well formed;
/// nothing if they are not.
pub fn try_new_nfkd() -> (r: Option<DecomposingNormalizer>)
    ensures
        r is Some <==> nfkd_tables().well_formed(),
        r is Some ==> r->0@ == nfkd_tables() && r->0.wf(),
{
    DecomposingNormalizer::try_from_baked(nfkd())
}

} // verus!
