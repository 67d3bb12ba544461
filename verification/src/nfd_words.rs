//! The baked NFD tables. The page index is stored as packed runs, the
//! descriptor words as packed streams; both are unfolded when a normalizer
//! is made.
use vstd::prelude::*;
use crate::data::expand;
use crate::data::expand_into;
use crate::data::extend_from;
use crate::data::unfold_runs;
use crate::data::unfold_runs_into;
use crate::data::DecompositionData;
use crate::model::Tables;
use crate::normalizer::DecomposingNormalizer;

verus! {

/// Packed runs of the page index.
pub const NFD_INDEX_00: [u32; 160] = [
    1, 0x10001, 0x20001, 0x30001, 0x40001, 0x50001, 0x60001, 0x70001, 0x80001, 0x90001, 0xA0001,
    0xB0001, 0xC0001, 0xD0001, 0xE0001, 0xF0001, 0x100001, 0x110001, 0x120001, 0x130001, 0x140001,
    0x150001, 0x160001, 0x170001, 0x180001, 0x190001, 0x1A0001, 0x1B0001, 0x1C0001, 0x1D0001,
    0x1E0001, 0x1F0001, 0x200001, 0x210001, 4, 0x220001, 7, 0x230001, 0x240001, 1, 0x250001,
    0x260001, 1, 0x270001, 0x280001, 0x290001, 0x2A0001, 0x2B0001, 0x2C0001, 1, 0x2D0001, 0x2E0001,
    0x2F0001, 0x300001, 0x310001, 0x320001, 0x330001, 0x340001, 0x350001, 0x360001, 0x370001,
    0x380001, 0xE, 0x390001, 3, 0x3A0001, 0x3B0001, 0x3C0001, 4, 0x3D0001, 0x3E0001, 0xEA, 0x3F0001,
    0x400001, 2, 0x410001, 0x420001, 0x430001, 0x440001, 1, 0x450001, 1, 0x460001, 0x470057,
    0x480001, 0x42, 0x490001, 0x4A0001, 0x4B0001, 0x4C0001, 0x4D0001, 5, 0x4E0001, 6, 0x4F0001, 1,
    0x500001, 0x510001, 0xD, 0x520001, 0x530001, 4, 0x540001, 2, 0x550001, 0x560001, 0x570001,
    0x580001, 0x590001, 0x5A0001, 0x5B0001, 0x5C0001, 0x5D0001, 0x5E0001, 1, 0x5F0001, 0x600001, 1,
    0x610001, 0x620001, 0x630001, 0x640001, 1, 0x650001, 1, 0x660001, 0x670001, 0x680001, 0x690001,
    2, 0x6A0001, 1, 0x6B0001, 0x6C0001, 0x99, 0x6D0001, 0x6E0001, 8, 0x6F0001, 0x99, 0x700001, 0x28,
    0x710001, 0x720001, 0x730001, 0x1B, 0x740001, 1, 0x750001, 2, 0x760001, 0xB, 0x770001, 0x780001,
    0x21D, 0x790001, 0x7A0001, 0x7B0001, 0x7C0001, 0x7D0001,
];

/// A packed stream of descriptor words.
pub const NFD_DATA_00: [u64; 997] = [
    0xC0007F, 0x300E600004102, 0x301E600004102, 0x302E600004102, 0x303E600004102, 0x308E600004102,
    0x30AE600004102, 0, 0x327CA00004302, 0x300E600004502, 0x301E600004502, 0x302E600004502,
    0x308E600004502, 0x300E600004902, 0x301E600004902, 0x302E600004902, 0x308E600004902, 0,
    0x303E600004E02, 0x300E600004F02, 0x301E600004F02, 0x302E600004F02, 0x303E600004F02,
    0x308E600004F02, 0, 0, 0x300E600005502, 0x301E600005502, 0x302E600005502, 0x308E600005502,
    0x301E600005902, 0, 0, 0x300E600006102, 0x301E600006102, 0x302E600006102, 0x303E600006102,
    0x308E600006102, 0x30AE600006102, 0, 0x327CA00006302, 0x300E600006502, 0x301E600006502,
    0x302E600006502, 0x308E600006502, 0x300E600006902, 0x301E600006902, 0x302E600006902,
    0x308E600006902, 0, 0x303E600006E02, 0x300E600006F02, 0x301E600006F02, 0x302E600006F02,
    0x303E600006F02, 0x308E600006F02, 0, 0, 0x300E600007502, 0x301E600007502, 0x302E600007502,
    0x308E600007502, 0x301E600007902, 0, 0x308E600007902, 0x304E600004102, 0x304E600006102,
    0x306E600004102, 0x306E600006102, 0x328CA00004102, 0x328CA00006102, 0x301E600004302,
    0x301E600006302, 0x302E600004302, 0x302E600006302, 0x307E600004302, 0x307E600006302,
    0x30CE600004302, 0x30CE600006302, 0x30CE600004402, 0x30CE600006402, 0, 0, 0x304E600004502,
    0x304E600006502, 0x306E600004502, 0x306E600006502, 0x307E600004502, 0x307E600006502,
    0x328CA00004502, 0x328CA00006502, 0x30CE600004502, 0x30CE600006502, 0x302E600004702,
    0x302E600006702, 0x306E600004702, 0x306E600006702, 0x307E600004702, 0x307E600006702,
    0x327CA00004702, 0x327CA00006702, 0x302E600004802, 0x302E600006802, 0, 0, 0x303E600004902,
    0x303E600006902, 0x304E600004902, 0x304E600006902, 0x306E600004902, 0x306E600006902,
    0x328CA00004902, 0x328CA00006902, 0x307E600004902, 0, 0, 0, 0x302E600004A02, 0x302E600006A02,
    0x327CA00004B02, 0x327CA00006B02, 0, 0x301E600004C02, 0x301E600006C02, 0x327CA00004C02,
    0x327CA00006C02, 0x30CE600004C02, 0x30CE600006C02, 0x4003C, 0x301E600004E02, 0x301E600006E02,
    0x327CA00004E02, 0x327CA00006E02, 0x30CE600004E02, 0x30CE600006E02, 0, 0, 0, 0x304E600004F02,
    0x304E600006F02, 0x306E600004F02, 0x306E600006F02, 0x30BE600004F02, 0x30BE600006F02, 0, 0,
    0x301E600005202, 0x301E600007202, 0x327CA00005202, 0x327CA00007202, 0x30CE600005202,
    0x30CE600007202, 0x301E600005302, 0x301E600007302, 0x302E600005302, 0x302E600007302,
    0x327CA00005302, 0x327CA00007302, 0x30CE600005302, 0x30CE600007302, 0x327CA00005402,
    0x327CA00007402, 0x30CE600005402, 0x30CE600007402, 0, 0, 0x303E600005502, 0x303E600007502,
    0x304E600005502, 0x304E600007502, 0x306E600005502, 0x306E600007502, 0x30AE600005502,
    0x30AE600007502, 0x30BE600005502, 0x30BE600007502, 0x328CA00005502, 0x328CA00007502,
    0x302E600005702, 0x302E600007702, 0x302E600005902, 0x302E600007902, 0x308E600005902,
    0x301E600005A02, 0x301E600007A02, 0x307E600005A02, 0x307E600007A02, 0x30CE600005A02,
    0x30CE600007A02, 0x210002, 0x31BD800004F02, 0x31BD800006F02, 0xD0002, 0x31BD800005502,
    0x31BD800007502, 0x1C0053, 0x30CE600004102, 0x30CE600006102, 0x30CE600004902, 0x30CE600006902,
    0x30CE600004F02, 0x30CE600006F02, 0x30CE600005502, 0x30CE600007502, 0x304E60308E60055,
    0x304E60308E60075, 0x301E60308E60055, 0x301E60308E60075, 0x30CE60308E60055, 0x30CE60308E60075,
    0x300E60308E60055, 0x300E60308E60075, 0, 0x304E60308E60041, 0x304E60308E60061,
    0x304E60307E60041, 0x304E60307E60061, 0x304E60000C602, 0x304E60000E602, 0, 0, 0x30CE600004702,
    0x30CE600006702, 0x30CE600004B02, 0x30CE600006B02, 0x328CA00004F02, 0x328CA00006F02,
    0x304E60328CA004F, 0x304E60328CA006F, 0x30CE60001B702, 0x30CE600029202, 0x30CE600006A02, 0, 0,
    0, 0x301E600004702, 0x301E600006702, 0, 0, 0x300E600004E02, 0x300E600006E02, 0x301E6030AE60041,
    0x301E6030AE60061, 0x301E60000C602, 0x301E60000E602, 0x301E60000D802, 0x301E60000F802,
    0x30FE600004102, 0x30FE600006102, 0x311E600004102, 0x311E600006102, 0x30FE600004502,
    0x30FE600006502, 0x311E600004502, 0x311E600006502, 0x30FE600004902, 0x30FE600006902,
    0x311E600004902, 0x311E600006902, 0x30FE600004F02, 0x30FE600006F02, 0x311E600004F02,
    0x311E600006F02, 0x30FE600005202, 0x30FE600007202, 0x311E600005202, 0x311E600007202,
    0x30FE600005502, 0x30FE600007502, 0x311E600005502, 0x311E600007502, 0x326DC00005302,
    0x326DC00007302, 0x326DC00005402, 0x326DC00007402, 0, 0, 0x30CE600004802, 0x30CE600006802,
    0x6000E, 0x307E600004102, 0x307E600006102, 0x327CA00004502, 0x327CA00006502, 0x304E60308E6004F,
    0x304E60308E6006F, 0x304E60303E6004F, 0x304E60303E6006F, 0x307E600004F02, 0x307E600006F02,
    0x304E60307E6004F, 0x304E60307E6006F, 0x304E600005902, 0x304E600007902, 0xCC0070, 0x300E601,
    0x301E601, 0x302E601, 0x303E601, 0x304E601, 0x305E601, 0x306E601, 0x307E601, 0x308E601,
    0x309E601, 0x30AE601, 0x30BE601, 0x30CE601, 0x30DE601, 0x30EE601, 0x30FE601, 0x310E601,
    0x311E601, 0x312E601, 0x313E601, 0x314E601, 0x315E801, 0x316DC01, 0x317DC01, 0x318DC01,
    0x319DC01, 0x31AE801, 0x31BD801, 0x31CDC01, 0x31DDC01, 0x31EDC01, 0x31FDC01, 0x320DC01,
    0x321CA01, 0x322CA01, 0x323DC01, 0x324DC01, 0x325DC01, 0x326DC01, 0x327CA01, 0x328CA01,
    0x329DC01, 0x32ADC01, 0x32BDC01, 0x32CDC01, 0x32DDC01, 0x32EDC01, 0x32FDC01, 0x330DC01,
    0x331DC01, 0x332DC01, 0x333DC01, 0x3340101, 0x3350101, 0x3360101, 0x3370101, 0x3380101,
    0x339DC01, 0x33ADC01, 0x33BDC01, 0x33CDC01, 0x33DE601, 0x33EE601, 0x33FE601, 0x104, 0x10104,
    0x342E601, 0x20104, 0x30204, 0x345F001, 0x346E601, 0x347DC01, 0x348DC01, 0x349DC01, 0x34AE601,
    0x34BE601, 0x34CE601, 0x34DDC01, 0x34EDC01, 0, 0x350E601, 0x351E601, 0x352E601, 0x353DC01,
    0x354DC01, 0x355DC01, 0x356DC01, 0x357E601, 0x358E801, 0x359DC01, 0x35ADC01, 0x35BE601,
    0x35CE901, 0x35DEA01, 0x35EEA01, 0x35FE901, 0x360EA01, 0x361EA01, 0x362E901, 0x363E601,
    0x364E601, 0x365E601, 0x366E601, 0x367E601, 0x368E601, 0x369E601, 0x36AE601, 0x36BE601,
    0x36CE601, 0x36DE601, 0x36EE601, 0x36FE601, 0x40001, 0x2B90003, 0x90001, 0x3B0003, 0x6000C,
    0x301E60000A802, 0x301E600039102, 0xB70003, 0x301E600039502, 0x301E600039702, 0x301E600039902,
    0, 0x301E600039F02, 0, 0x301E60003A502, 0x301E60003A902, 0x301E60308E603B9, 0x190007,
    0x308E600039902, 0x308E60003A502, 0x301E60003B102, 0x301E60003B502, 0x301E60003B702,
    0x301E60003B902, 0x301E60308E603C5, 0x190005, 0x308E60003B902, 0x308E60003C502, 0x301E60003BF02,
    0x301E60003C502, 0x301E60003C902, 0x40002, 0x301E60003D202, 0x308E60003D202, 0x2B0008,
    0x300E600041502, 0x308E600041502, 0, 0x301E600041302, 0, 0, 0, 0x308E600040602, 0x40003,
    0x301E600041A02, 0x300E600041802, 0x306E600042302, 0xA0001, 0x306E600041802, 0x1F0001,
    0x306E600043802, 0x160008, 0x300E600043502, 0x308E600043502, 0, 0x301E600043302, 0, 0, 0,
    0x308E600045602, 0x40003, 0x301E600043A02, 0x300E600043802, 0x306E600044302, 0x170002,
    0x30FE600047402, 0x30FE600047502, 0xB0005, 0x483E601, 0x484E601, 0x485E601, 0x486E601,
    0x487E601, 0x390002, 0x306E600041602, 0x306E600043602, 0xD002A, 0x306E600041002,
    0x306E600043002, 0x308E600041002, 0x308E600043002, 0, 0, 0x306E600041502, 0x306E600043502, 0, 0,
    0x308E60004D802, 0x308E60004D902, 0x308E600041602, 0x308E600043602, 0x308E600041702,
    0x308E600043702, 0, 0, 0x304E600041802, 0x304E600043802, 0x308E600041802, 0x308E600043802,
    0x308E600041E02, 0x308E600043E02, 0, 0, 0x308E60004E802, 0x308E60004E902, 0x308E600042D02,
    0x308E600044D02, 0x304E600042302, 0x304E600044302, 0x308E600042302, 0x308E600044302,
    0x30BE600042302, 0x30BE600044302, 0x308E600042702, 0x308E600044702, 0, 0, 0x308E600042B02,
    0x308E600044B02, 0x970037, 0x591DC01, 0x592E601, 0x593E601, 0x594E601, 0x595E601, 0x596DC01,
    0x597E601, 0x598E601, 0x599E601, 0x59ADE01, 0x59BDC01, 0x59CE601, 0x59DE601, 0x59EE601,
    0x59FE601, 0x5A0E601, 0x5A1E601, 0x5A2DC01, 0x5A3DC01, 0x5A4DC01, 0x5A5DC01, 0x5A6DC01,
    0x5A7DC01, 0x5A8E601, 0x5A9E601, 0x5AADC01, 0x5ABE601, 0x5ACE601, 0x5ADDE01, 0x5AEE401,
    0x5AFE601, 0x5B00A01, 0x5B10B01, 0x5B20C01, 0x5B30D01, 0x5B40E01, 0x5B50F01, 0x5B61001,
    0x5B71101, 0x5B81201, 0x5B91301, 0x5BA1301, 0x5BB1401, 0x5BC1501, 0x5BD1601, 0, 0x5BF1701, 0,
    0x5C11801, 0x5C21901, 0, 0x5C4E601, 0x5C5DC01, 0, 0x5C71201, 0x48000B, 0x610E601, 0x611E601,
    0x612E601, 0x613E601, 0x614E601, 0x615E601, 0x616E601, 0x617E601, 0x6181E01, 0x6191F01,
    0x61A2001, 0x70005, 0x653E600062702, 0x654E600062702, 0x654E600064802, 0x655DC00062702,
    0x654E600064A02, 0x240015, 0x64B1B01, 0x64C1C01, 0x64D1D01, 0x64E1E01, 0x64F1F01, 0x6502001,
    0x6512101, 0x6522201, 0x653E601, 0x654E601, 0x655DC01, 0x656DC01, 0x657E601, 0x658E601,
    0x659E601, 0x65AE601, 0x65BE601, 0x65CDC01, 0x65DE601, 0x65EE601, 0x65FDC01, 0x100001,
    0x6702301, 0x4F0003, 0x654E60006D502, 0, 0x654E60006C102, 0x10001B, 0x654E60006D202, 0, 0,
    0x6D6E601, 0x6D7E601, 0x6D8E601, 0x6D9E601, 0x6DAE601, 0x6DBE601, 0x6DCE601, 0, 0, 0x6DFE601,
    0x6E0E601, 0x6E1E601, 0x6E2E601, 0x6E3DC01, 0x6E4E601, 0, 0, 0x6E7E601, 0x6E8E601, 0, 0x6EADC01,
    0x6EBE601, 0x6ECE601, 0x6EDDC01, 0x230001, 0x7112401, 0x1E001B, 0x730E601, 0x731DC01, 0x732E601,
    0x733E601, 0x734DC01, 0x735E601, 0x736E601, 0x737DC01, 0x738DC01, 0x739DC01, 0x73AE601,
    0x73BDC01, 0x73CDC01, 0x73DE601, 0x73EDC01, 0x73FE601, 0x740E601, 0x741E601, 0x742DC01,
    0x743E601, 0x744DC01, 0x745E601, 0x746DC01, 0x747E601, 0x748DC01, 0x749E601, 0x74AE601,
    0xA00009, 0x7EBE601, 0x7ECE601, 0x7EDE601, 0x7EEE601, 0x7EFE601, 0x7F0E601, 0x7F1E601,
    0x7F2DC01, 0x7F3E601, 0x90001, 0x7FDDC01, 0x180018, 0x816E601, 0x817E601, 0x818E601, 0x819E601,
    0, 0x81BE601, 0x81CE601, 0x81DE601, 0x81EE601, 0x81FE601, 0x820E601, 0x821E601, 0x822E601,
    0x823E601, 0, 0x825E601, 0x826E601, 0x827E601, 0, 0x829E601, 0x82AE601, 0x82BE601, 0x82CE601,
    0x82DE601, 0x2B0003, 0x859DC01, 0x85ADC01, 0x85BDC01, 0x3C0008, 0x898E601, 0x899DC01, 0x89ADC01,
    0x89BDC01, 0x89CE601, 0x89DE601, 0x89EE601, 0x89FE601, 0x2A0036, 0x8CAE601, 0x8CBE601,
    0x8CCE601, 0x8CDE601, 0x8CEE601, 0x8CFDC01, 0x8D0DC01, 0x8D1DC01, 0x8D2DC01, 0x8D3DC01,
    0x8D4E601, 0x8D5E601, 0x8D6E601, 0x8D7E601, 0x8D8E601, 0x8D9E601, 0x8DAE601, 0x8DBE601,
    0x8DCE601, 0x8DDE601, 0x8DEE601, 0x8DFE601, 0x8E0E601, 0x8E1E601, 0, 0x8E3DC01, 0x8E4E601,
    0x8E5E601, 0x8E6DC01, 0x8E7E601, 0x8E8E601, 0x8E9DC01, 0x8EAE601, 0x8EBE601, 0x8ECE601,
    0x8EDDC01, 0x8EEDC01, 0x8EFDC01, 0x8F01B01, 0x8F11C01, 0x8F21D01, 0x8F3E601, 0x8F4E601,
    0x8F5E601, 0x8F6DC01, 0x8F7E601, 0x8F8E601, 0x8F9DC01, 0x8FADC01, 0x8FBE601, 0x8FCE601,
    0x8FDE601, 0x8FEE601, 0x8FFE601, 0x290001, 0x93C0700092802, 0x70004, 0x93C0700093002, 0, 0,
    0x93C0700093302, 0x70001, 0x93C0701, 0x100013, 0x94D0901, 0, 0, 0, 0x951E601, 0x952DC01,
    0x953E601, 0x954E601, 0, 0, 0, 0x93C0700091502, 0x93C0700091602, 0x93C0700091702,
    0x93C0700091C02, 0x93C0700092102, 0x93C0700092202, 0x93C0700092B02, 0x93C0700092F02, 0x5C0001,
    0x9BC0701, 0xE0003, 0x9BE000009C702, 0x9D7000009C702, 0x9CD0901, 0xE0004, 0x9BC070009A102,
    0x9BC070009A202, 0, 0x9BC070009AF02, 0x1E0001, 0x9FEE601, 0x340004, 0xA3C07000A3202, 0, 0,
    0xA3C07000A3802, 0x50001, 0xA3C0701, 0x100001, 0xA4D0901, 0xB0006, 0xA3C07000A1602,
    0xA3C07000A1702, 0xA3C07000A1C02, 0, 0, 0xA3C07000A2B02, 0x5D0001, 0xABC0701, 0x100001,
    0xACD0901, 0x6E0001, 0xB3C0701, 0xB0006, 0xB5600000B4702, 0, 0, 0xB3E00000B4702,
    0xB5700000B4702, 0xB4D0901, 0xE0002, 0xB3C07000B2102, 0xB3C07000B2202, 0x360001,
    0xBD700000B9202, 0x350004, 0xBBE00000BC602, 0xBBE00000BC702, 0xBD700000BC602, 0xBCD0901,
    0x6E0001, 0xC3C0701, 0xB0001, 0xC565B000C4602, 0x40001, 0xC4D0901, 0x70002, 0xC555401,
    0xC565B01, 0x650005, 0xCBC0701, 0, 0, 0, 0xCD500000CBF02, 0x60007, 0xCD500000CC602,
    0xCD600000CC602, 0, 0xCC200000CC602, 0xCD5000CC2000CC6, 0, 0xCCD0901, 0x6D0002, 0xD3B0901,
    0xD3C0901, 0xD0004, 0xD3E00000D4602, 0xD3E00000D4702, 0xD5700000D4602, 0xD4D0901, 0x7C0001,
    0xDCA0901, 0xF0005, 0xDCA09000DD902, 0, 0xDCF00000DD902, 0xDCA090DCF000DD9, 0xDDF00000DD902,
    0x590003, 0xE386701, 0xE396701, 0xE3A0901, 0xD0004, 0xE486B01, 0xE496B01, 0xE4A6B01, 0xE4B6B01,
    0x6C0003, 0xEB87601, 0xEB97601, 0xEBA0901, 0xD0004, 0xEC87A01, 0xEC97A01, 0xECA7A01, 0xECB7A01,
    0x4C0002, 0xF18DC01, 0xF19DC01, 0x1B0005, 0xF35DC01, 0, 0xF37DC01, 0, 0xF39D801, 0x90001,
    0xFB700000F4202, 0x90001, 0xFB700000F4C02, 0x40001, 0xFB700000F5102, 0x40001, 0xFB700000F5602,
    0x40001, 0xFB700000F5B02, 0xC0001, 0xFB500000F4002, 0x70017, 0xF718101, 0xF728201, 0x50204,
    0xF748401, 0x70204, 0xF8082000FB202, 0, 0xF8082000FB302, 0, 0xF7A8201, 0xF7B8201, 0xF7C8201,
    0xF7D8201, 0, 0, 0xF808201, 0x90204, 0xF82E601, 0xF83E601, 0xF840901, 0, 0xF86E601, 0xF87E601,
    0xB0001, 0xFB700000F9202, 0x90001, 0xFB700000F9C02, 0x40001, 0xFB700000FA102, 0x40001,
    0xFB700000FA602, 0x40001, 0xFB700000FAB02, 0xC0001, 0xFB500000F9002, 0xC0001, 0xFC6DC01,
    0x5F0001, 0x102E0000102502, 0x100004, 0x10370701, 0, 0x10390901, 0x103A0901, 0x520001,
    0x108DDC01,
];

/// A packed stream of descriptor words.
pub const NFD_DATA_01: [u64; 999] = [
    0xCF0003, 0x135DE601, 0x135EE601, 0x135FE601, 0x340002, 0x17140901, 0x17150901, 0x1E0001,
    0x17340901, 0x9D0001, 0x17D20901, 0xA0001, 0x17DDE601, 0x4B0001, 0x18A9E401, 0x8F0003,
    0x1939DE01, 0x193AE601, 0x193BDC01, 0x5B0002, 0x1A17E601, 0x1A18DC01, 0x470001, 0x1A600901,
    0x14000B, 0x1A75E601, 0x1A76E601, 0x1A77E601, 0x1A78E601, 0x1A79E601, 0x1A7AE601, 0x1A7BE601,
    0x1A7CE601, 0, 0, 0x1A7FDC01, 0x30001F, 0x1AB0E601, 0x1AB1E601, 0x1AB2E601, 0x1AB3E601,
    0x1AB4E601, 0x1AB5DC01, 0x1AB6DC01, 0x1AB7DC01, 0x1AB8DC01, 0x1AB9DC01, 0x1ABADC01, 0x1ABBE601,
    0x1ABCE601, 0x1ABDDC01, 0, 0x1ABFDC01, 0x1AC0DC01, 0x1AC1E601, 0x1AC2E601, 0x1AC3DC01,
    0x1AC4DC01, 0x1AC5E601, 0x1AC6E601, 0x1AC7E601, 0x1AC8E601, 0x1AC9E601, 0x1ACADC01, 0x1ACBE601,
    0x1ACCE601, 0x1ACDE601, 0x1ACEE601, 0x37000D, 0x1B3500001B0502, 0, 0x1B3500001B0702, 0,
    0x1B3500001B0902, 0, 0x1B3500001B0B02, 0, 0x1B3500001B0D02, 0, 0, 0, 0x1B3500001B1102, 0x210001,
    0x1B340701, 0x6000A, 0x1B3500001B3A02, 0, 0x1B3500001B3C02, 0, 0, 0x1B3500001B3E02,
    0x1B3500001B3F02, 0, 0x1B3500001B4202, 0x1B440901, 0x260009, 0x1B6BE601, 0x1B6CDC01, 0x1B6DE601,
    0x1B6EE601, 0x1B6FE601, 0x1B70E601, 0x1B71E601, 0x1B72E601, 0x1B73E601, 0x360002, 0x1BAA0901,
    0x1BAB0901, 0x3A0001, 0x1BE60701, 0xB0002, 0x1BF20901, 0x1BF30901, 0x430001, 0x1C370701,
    0x980019, 0x1CD0E601, 0x1CD1E601, 0x1CD2E601, 0, 0x1CD40101, 0x1CD5DC01, 0x1CD6DC01, 0x1CD7DC01,
    0x1CD8DC01, 0x1CD9DC01, 0x1CDAE601, 0x1CDBE601, 0x1CDCDC01, 0x1CDDDC01, 0x1CDEDC01, 0x1CDFDC01,
    0x1CE0E601, 0, 0x1CE20101, 0x1CE30101, 0x1CE40101, 0x1CE50101, 0x1CE60101, 0x1CE70101,
    0x1CE80101, 0x40001, 0x1CEDDC01, 0x60006, 0x1CF4E601, 0, 0, 0, 0x1CF8E601, 0x1CF9E601, 0x4600DC,
    0x1DC0E601, 0x1DC1E601, 0x1DC2DC01, 0x1DC3E601, 0x1DC4E601, 0x1DC5E601, 0x1DC6E601, 0x1DC7E601,
    0x1DC8E601, 0x1DC9E601, 0x1DCADC01, 0x1DCBE601, 0x1DCCE601, 0x1DCDEA01, 0x1DCED601, 0x1DCFDC01,
    0x1DD0CA01, 0x1DD1E601, 0x1DD2E601, 0x1DD3E601, 0x1DD4E601, 0x1DD5E601, 0x1DD6E601, 0x1DD7E601,
    0x1DD8E601, 0x1DD9E601, 0x1DDAE601, 0x1DDBE601, 0x1DDCE601, 0x1DDDE601, 0x1DDEE601, 0x1DDFE601,
    0x1DE0E601, 0x1DE1E601, 0x1DE2E601, 0x1DE3E601, 0x1DE4E601, 0x1DE5E601, 0x1DE6E601, 0x1DE7E601,
    0x1DE8E601, 0x1DE9E601, 0x1DEAE601, 0x1DEBE601, 0x1DECE601, 0x1DEDE601, 0x1DEEE601, 0x1DEFE601,
    0x1DF0E601, 0x1DF1E601, 0x1DF2E601, 0x1DF3E601, 0x1DF4E601, 0x1DF5E601, 0x1DF6E801, 0x1DF7E401,
    0x1DF8E401, 0x1DF9DC01, 0x1DFADA01, 0x1DFBE601, 0x1DFCE901, 0x1DFDDC01, 0x1DFEE601, 0x1DFFDC01,
    0x325DC00004102, 0x325DC00006102, 0x307E600004202, 0x307E600006202, 0x323DC00004202,
    0x323DC00006202, 0x331DC00004202, 0x331DC00006202, 0x301E60327CA0043, 0x301E60327CA0063,
    0x307E600004402, 0x307E600006402, 0x323DC00004402, 0x323DC00006402, 0x331DC00004402,
    0x331DC00006402, 0x327CA00004402, 0x327CA00006402, 0x32DDC00004402, 0x32DDC00006402,
    0x300E60304E60045, 0x300E60304E60065, 0x301E60304E60045, 0x301E60304E60065, 0x32DDC00004502,
    0x32DDC00006502, 0x330DC00004502, 0x330DC00006502, 0x306E60327CA0045, 0x306E60327CA0065,
    0x307E600004602, 0x307E600006602, 0x304E600004702, 0x304E600006702, 0x307E600004802,
    0x307E600006802, 0x323DC00004802, 0x323DC00006802, 0x308E600004802, 0x308E600006802,
    0x327CA00004802, 0x327CA00006802, 0x32EDC00004802, 0x32EDC00006802, 0x330DC00004902,
    0x330DC00006902, 0x301E60308E60049, 0x301E60308E60069, 0x301E600004B02, 0x301E600006B02,
    0x323DC00004B02, 0x323DC00006B02, 0x331DC00004B02, 0x331DC00006B02, 0x323DC00004C02,
    0x323DC00006C02, 0x304E60323DC004C, 0x304E60323DC006C, 0x331DC00004C02, 0x331DC00006C02,
    0x32DDC00004C02, 0x32DDC00006C02, 0x301E600004D02, 0x301E600006D02, 0x307E600004D02,
    0x307E600006D02, 0x323DC00004D02, 0x323DC00006D02, 0x307E600004E02, 0x307E600006E02,
    0x323DC00004E02, 0x323DC00006E02, 0x331DC00004E02, 0x331DC00006E02, 0x32DDC00004E02,
    0x32DDC00006E02, 0x301E60303E6004F, 0x301E60303E6006F, 0x308E60303E6004F, 0x308E60303E6006F,
    0x300E60304E6004F, 0x300E60304E6006F, 0x301E60304E6004F, 0x301E60304E6006F, 0x301E600005002,
    0x301E600007002, 0x307E600005002, 0x307E600007002, 0x307E600005202, 0x307E600007202,
    0x323DC00005202, 0x323DC00007202, 0x304E60323DC0052, 0x304E60323DC0072, 0x331DC00005202,
    0x331DC00007202, 0x307E600005302, 0x307E600007302, 0x323DC00005302, 0x323DC00007302,
    0x307E60301E60053, 0x307E60301E60073, 0x307E6030CE60053, 0x307E6030CE60073, 0x307E60323DC0053,
    0x307E60323DC0073, 0x307E600005402, 0x307E600007402, 0x323DC00005402, 0x323DC00007402,
    0x331DC00005402, 0x331DC00007402, 0x32DDC00005402, 0x32DDC00007402, 0x324DC00005502,
    0x324DC00007502, 0x330DC00005502, 0x330DC00007502, 0x32DDC00005502, 0x32DDC00007502,
    0x301E60303E60055, 0x301E60303E60075, 0x308E60304E60055, 0x308E60304E60075, 0x303E600005602,
    0x303E600007602, 0x323DC00005602, 0x323DC00007602, 0x300E600005702, 0x300E600007702,
    0x301E600005702, 0x301E600007702, 0x308E600005702, 0x308E600007702, 0x307E600005702,
    0x307E600007702, 0x323DC00005702, 0x323DC00007702, 0x307E600005802, 0x307E600007802,
    0x308E600005802, 0x308E600007802, 0x307E600005902, 0x307E600007902, 0x302E600005A02,
    0x302E600007A02, 0x323DC00005A02, 0x323DC00007A02, 0x331DC00005A02, 0x331DC00007A02,
    0x331DC00006802, 0x308E600007402, 0x30AE600007702, 0x30AE600007902, 0, 0x307E600017F02, 0x4005A,
    0x323DC00004102, 0x323DC00006102, 0x309E600004102, 0x309E600006102, 0x301E60302E60041,
    0x301E60302E60061, 0x300E60302E60041, 0x300E60302E60061, 0x309E60302E60041, 0x309E60302E60061,
    0x303E60302E60041, 0x303E60302E60061, 0x302E60323DC0041, 0x302E60323DC0061, 0x301E60306E60041,
    0x301E60306E60061, 0x300E60306E60041, 0x300E60306E60061, 0x309E60306E60041, 0x309E60306E60061,
    0x303E60306E60041, 0x303E60306E60061, 0x306E60323DC0041, 0x306E60323DC0061, 0x323DC00004502,
    0x323DC00006502, 0x309E600004502, 0x309E600006502, 0x303E600004502, 0x303E600006502,
    0x301E60302E60045, 0x301E60302E60065, 0x300E60302E60045, 0x300E60302E60065, 0x309E60302E60045,
    0x309E60302E60065, 0x303E60302E60045, 0x303E60302E60065, 0x302E60323DC0045, 0x302E60323DC0065,
    0x309E600004902, 0x309E600006902, 0x323DC00004902, 0x323DC00006902, 0x323DC00004F02,
    0x323DC00006F02, 0x309E600004F02, 0x309E600006F02, 0x301E60302E6004F, 0x301E60302E6006F,
    0x300E60302E6004F, 0x300E60302E6006F, 0x309E60302E6004F, 0x309E60302E6006F, 0x303E60302E6004F,
    0x303E60302E6006F, 0x302E60323DC004F, 0x302E60323DC006F, 0x301E6031BD8004F, 0x301E6031BD8006F,
    0x300E6031BD8004F, 0x300E6031BD8006F, 0x309E6031BD8004F, 0x309E6031BD8006F, 0x303E6031BD8004F,
    0x303E6031BD8006F, 0x323DC031BD8004F, 0x323DC031BD8006F, 0x323DC00005502, 0x323DC00007502,
    0x309E600005502, 0x309E600007502, 0x301E6031BD80055, 0x301E6031BD80075, 0x300E6031BD80055,
    0x300E6031BD80075, 0x309E6031BD80055, 0x309E6031BD80075, 0x303E6031BD80055, 0x303E6031BD80075,
    0x323DC031BD80055, 0x323DC031BD80075, 0x300E600005902, 0x300E600007902, 0x323DC00005902,
    0x323DC00007902, 0x309E600005902, 0x309E600007902, 0x303E600005902, 0x303E600007902, 0x60102,
    0x313E60003B102, 0x314E60003B102, 0x300E60313E603B1, 0x300E60314E603B1, 0x301E60313E603B1,
    0x301E60314E603B1, 0x342E60313E603B1, 0x342E60314E603B1, 0x313E600039102, 0x314E600039102,
    0x300E60313E60391, 0x300E60314E60391, 0x301E60313E60391, 0x301E60314E60391, 0x342E60313E60391,
    0x342E60314E60391, 0x313E60003B502, 0x314E60003B502, 0x300E60313E603B5, 0x300E60314E603B5,
    0x301E60313E603B5, 0x301E60314E603B5, 0, 0, 0x313E600039502, 0x314E600039502, 0x300E60313E60395,
    0x300E60314E60395, 0x301E60313E60395, 0x301E60314E60395, 0, 0, 0x313E60003B702, 0x314E60003B702,
    0x300E60313E603B7, 0x300E60314E603B7, 0x301E60313E603B7, 0x301E60314E603B7, 0x342E60313E603B7,
    0x342E60314E603B7, 0x313E600039702, 0x314E600039702, 0x300E60313E60397, 0x300E60314E60397,
    0x301E60313E60397, 0x301E60314E60397, 0x342E60313E60397, 0x342E60314E60397, 0x313E60003B902,
    0x314E60003B902, 0x300E60313E603B9, 0x300E60314E603B9, 0x301E60313E603B9, 0x301E60314E603B9,
    0x342E60313E603B9, 0x342E60314E603B9, 0x313E600039902, 0x314E600039902, 0x300E60313E60399,
    0x300E60314E60399, 0x301E60313E60399, 0x301E60314E60399, 0x342E60313E60399, 0x342E60314E60399,
    0x313E60003BF02, 0x314E60003BF02, 0x300E60313E603BF, 0x300E60314E603BF, 0x301E60313E603BF,
    0x301E60314E603BF, 0, 0, 0x313E600039F02, 0x314E600039F02, 0x300E60313E6039F, 0x300E60314E6039F,
    0x301E60313E6039F, 0x301E60314E6039F, 0, 0, 0x313E60003C502, 0x314E60003C502, 0x300E60313E603C5,
    0x300E60314E603C5, 0x301E60313E603C5, 0x301E60314E603C5, 0x342E60313E603C5, 0x342E60314E603C5,
    0, 0x314E60003A502, 0, 0x300E60314E603A5, 0, 0x301E60314E603A5, 0, 0x342E60314E603A5,
    0x313E60003C902, 0x314E60003C902, 0x300E60313E603C9, 0x300E60314E603C9, 0x301E60313E603C9,
    0x301E60314E603C9, 0x342E60313E603C9, 0x342E60314E603C9, 0x313E60003A902, 0x314E60003A902,
    0x300E60313E603A9, 0x300E60314E603A9, 0x301E60313E603A9, 0x301E60314E603A9, 0x342E60313E603A9,
    0x342E60314E603A9, 0x300E60003B102, 0x301E60003B102, 0x300E60003B502, 0x301E60003B502,
    0x300E60003B702, 0x301E60003B702, 0x300E60003B902, 0x301E60003B902, 0x300E60003BF02,
    0x301E60003BF02, 0x300E60003C502, 0x301E60003C502, 0x300E60003C902, 0x301E60003C902, 0, 0,
    0x345F00313E603B1, 0x345F00314E603B1, 0xB0404, 0xF0404, 0x130404, 0x170404, 0x1B0404, 0x1F0404,
    0x345F00313E60391, 0x345F00314E60391, 0x230404, 0x270404, 0x2B0404, 0x2F0404, 0x330404,
    0x370404, 0x345F00313E603B7, 0x345F00314E603B7, 0x3B0404, 0x3F0404, 0x430404, 0x470404,
    0x4B0404, 0x4F0404, 0x345F00313E60397, 0x345F00314E60397, 0x530404, 0x570404, 0x5B0404,
    0x5F0404, 0x630404, 0x670404, 0x345F00313E603C9, 0x345F00314E603C9, 0x6B0404, 0x6F0404,
    0x730404, 0x770404, 0x7B0404, 0x7F0404, 0x345F00313E603A9, 0x345F00314E603A9, 0x830404,
    0x870404, 0x8B0404, 0x8F0404, 0x930404, 0x970404, 0x306E60003B102, 0x304E60003B102,
    0x345F00300E603B1, 0x345F00003B102, 0x345F00301E603B1, 0, 0x342E60003B102, 0x345F00342E603B1,
    0x306E600039102, 0x304E600039102, 0x300E600039102, 0x301E600039102, 0x345F000039102, 0,
    0x3B90003, 0, 0, 0x342E60000A802, 0x345F00300E603B7, 0x345F00003B702, 0x345F00301E603B7, 0,
    0x342E60003B702, 0x345F00342E603B7, 0x300E600039502, 0x301E600039502, 0x300E600039702,
    0x301E600039702, 0x345F000039702, 0x300E6001FBF02, 0x301E6001FBF02, 0x342E6001FBF02,
    0x306E60003B902, 0x304E60003B902, 0x300E60308E603B9, 0x301E60308E603B9, 0, 0, 0x342E60003B902,
    0x342E60308E603B9, 0x306E600039902, 0x304E600039902, 0x300E600039902, 0x301E600039902, 0,
    0x300E6001FFE02, 0x301E6001FFE02, 0x342E6001FFE02, 0x306E60003C502, 0x304E60003C502,
    0x300E60308E603C5, 0x301E60308E603C5, 0x313E60003C102, 0x314E60003C102, 0x342E60003C502,
    0x342E60308E603C5, 0x306E60003A502, 0x304E60003A502, 0x300E60003A502, 0x301E60003A502,
    0x314E60003A102, 0x300E60000A802, 0x301E60000A802, 0x600003, 0, 0, 0x345F00300E603C9,
    0x345F00003C902, 0x345F00301E603C9, 0, 0x342E60003C902, 0x345F00342E603C9, 0x300E600039F02,
    0x301E600039F02, 0x300E60003A902, 0x301E60003A902, 0x345F00003A902, 0xB40003, 0, 0, 0x20020003,
    0x20030003, 0xCE000D, 0x20D0E601, 0x20D1E601, 0x20D20101, 0x20D30101, 0x20D4E601, 0x20D5E601,
    0x20D6E601, 0x20D7E601, 0x20D80101, 0x20D90101, 0x20DA0101, 0x20DBE601, 0x20DCE601, 0x40010,
    0x20E1E601, 0, 0, 0, 0x20E50101, 0x20E60101, 0x20E7E601, 0x20E8DC01, 0x20E9E601, 0x20EA0101,
    0x20EB0101, 0x20ECDC01, 0x20EDDC01, 0x20EEDC01, 0x20EFDC01, 0x20F0E601, 0x350006, 0x3A90003, 0,
    0, 0, 0x4B0003, 0x30AE600004102, 0x6E0002, 0x3380100219002, 0x3380100219202, 0x120001,
    0x3380100219402, 0x1E0003, 0x338010021D002, 0x338010021D402, 0x338010021D202, 0x340001,
    0x3380100220302, 0x40004, 0x3380100220802, 0, 0, 0x3380100220B02, 0x170003, 0x3380100222302, 0,
    0x3380100222502, 0x1A0009, 0x3380100223C02, 0, 0, 0x3380100224302, 0, 0, 0x3380100224502, 0,
    0x3380100224802, 0x160003, 0x3380100003D02, 0, 0x3380100226102, 0xA000D, 0x3380100224D02,
    0x3380100003C02, 0x3380100003E02, 0x3380100226402, 0x3380100226502, 0, 0, 0x3380100227202,
    0x3380100227302, 0, 0, 0x3380100227602, 0x3380100227702, 0x6000A, 0x3380100227A02,
    0x3380100227B02, 0, 0, 0x3380100228202, 0x3380100228302, 0, 0, 0x3380100228602, 0x3380100228702,
    0x220004, 0x338010022A202, 0x338010022A802, 0x338010022A902, 0x338010022AB02, 0x300004,
    0x3380100227C02, 0x3380100227D02, 0x3380100229102, 0x3380100229202, 0x60004, 0x338010022B202,
    0x338010022B302, 0x338010022B402, 0x338010022B502, 0x3B0002, 0x30080003, 0x30090003, 0xB10001,
    0x33801002ADD02, 0x920003, 0x2CEFE601, 0x2CF0E601, 0x2CF1E601, 0x8D0001, 0x2D7F0901, 0x600020,
    0x2DE0E601, 0x2DE1E601, 0x2DE2E601, 0x2DE3E601, 0x2DE4E601, 0x2DE5E601, 0x2DE6E601, 0x2DE7E601,
    0x2DE8E601, 0x2DE9E601, 0x2DEAE601, 0x2DEBE601, 0x2DECE601, 0x2DEDE601, 0x2DEEE601, 0x2DEFE601,
    0x2DF0E601, 0x2DF1E601, 0x2DF2E601, 0x2DF3E601, 0x2DF4E601, 0x2DF5E601, 0x2DF6E601, 0x2DF7E601,
    0x2DF8E601, 0x2DF9E601, 0x2DFAE601, 0x2DFBE601, 0x2DFCE601, 0x2DFDE601, 0x2DFEE601, 0x2DFFE601,
    0x2A0006, 0x302ADA01, 0x302BE401, 0x302CE801, 0x302DDE01, 0x302EE001, 0x302FE001, 0x1C001E,
    0x30990800304B02, 0, 0x30990800304D02, 0, 0x30990800304F02, 0, 0x30990800305102, 0,
    0x30990800305302, 0, 0x30990800305502, 0, 0x30990800305702, 0, 0x30990800305902, 0,
    0x30990800305B02, 0, 0x30990800305D02, 0, 0x30990800305F02, 0, 0x30990800306102, 0, 0,
    0x30990800306402, 0, 0x30990800306602, 0, 0x30990800306802, 0x6000E, 0x30990800306F02,
    0x309A0800306F02, 0, 0x30990800307202, 0x309A0800307202, 0, 0x30990800307502, 0x309A0800307502,
    0, 0x30990800307802, 0x309A0800307802, 0, 0x30990800307B02, 0x309A0800307B02, 0x160001,
    0x30990800304602, 0x40006, 0x30990801, 0x309A0801, 0, 0, 0, 0x30990800309D02, 0xD001E,
    0x3099080030AB02, 0, 0x3099080030AD02, 0, 0x3099080030AF02, 0, 0x3099080030B102, 0,
    0x3099080030B302, 0, 0x3099080030B502, 0, 0x3099080030B702, 0, 0x3099080030B902, 0,
    0x3099080030BB02, 0, 0x3099080030BD02, 0, 0x3099080030BF02, 0, 0x3099080030C102, 0, 0,
    0x3099080030C402, 0, 0x3099080030C602, 0, 0x3099080030C802, 0x6000E, 0x3099080030CF02,
    0x309A080030CF02, 0, 0x3099080030D202, 0x309A080030D202, 0, 0x3099080030D502, 0x309A080030D502,
    0, 0x3099080030D802, 0x309A080030D802, 0, 0x3099080030DB02, 0x309A080030DB02, 0x16000B,
    0x3099080030A602, 0, 0, 0x3099080030EF02, 0x3099080030F002, 0x3099080030F102, 0x3099080030F202,
    0, 0, 0, 0x3099080030FD02, 0x700001, 0xA66FE601,
];

/// A packed stream of descriptor words.
pub const NFD_DATA_02: [u64; 928] = [
    0x4000A, 0xA674E601, 0xA675E601, 0xA676E601, 0xA677E601, 0xA678E601, 0xA679E601, 0xA67AE601,
    0xA67BE601, 0xA67CE601, 0xA67DE601, 0x200002, 0xA69EE601, 0xA69FE601, 0x500002, 0xA6F0E601,
    0xA6F1E601, 0x140001, 0xA8060901, 0x250001, 0xA82C0901, 0x970001, 0xA8C40901, 0x1B0012,
    0xA8E0E601, 0xA8E1E601, 0xA8E2E601, 0xA8E3E601, 0xA8E4E601, 0xA8E5E601, 0xA8E6E601, 0xA8E7E601,
    0xA8E8E601, 0xA8E9E601, 0xA8EAE601, 0xA8EBE601, 0xA8ECE601, 0xA8EDE601, 0xA8EEE601, 0xA8EFE601,
    0xA8F0E601, 0xA8F1E601, 0x390003, 0xA92BDC01, 0xA92CDC01, 0xA92DDC01, 0x250001, 0xA9530901,
    0x5F0001, 0xA9B30701, 0xC0001, 0xA9C00901, 0x6F0009, 0xAAB0E601, 0, 0xAAB2E601, 0xAAB3E601,
    0xAAB4DC01, 0, 0, 0xAAB7E601, 0xAAB8E601, 0x50004, 0xAABEE601, 0xAABFE601, 0, 0xAAC1E601,
    0x340001, 0xAAF60901, 0x760001, 0xABED0901, 0x120000, 0x500A40000, 0x5C0190, 0x8C480003,
    0x66F40003, 0x8ECA0003, 0x8CC80003, 0x6ED10003, 0x4E320003, 0x53E50003, 0x9F9C0003, 0x9F9C0003,
    0x59510003, 0x91D10003, 0x55870003, 0x59480003, 0x61F60003, 0x76690003, 0x7F850003, 0x863F0003,
    0x87BA0003, 0x88F80003, 0x908F0003, 0x6A020003, 0x6D1B0003, 0x70D90003, 0x73DE0003, 0x843D0003,
    0x916A0003, 0x99F10003, 0x4E820003, 0x53750003, 0x6B040003, 0x721B0003, 0x862D0003, 0x9E1E0003,
    0x5D500003, 0x6FEB0003, 0x85CD0003, 0x89640003, 0x62C90003, 0x81D80003, 0x881F0003, 0x5ECA0003,
    0x67170003, 0x6D6A0003, 0x72FC0003, 0x90CE0003, 0x4F860003, 0x51B70003, 0x52DE0003, 0x64C40003,
    0x6AD30003, 0x72100003, 0x76E70003, 0x80010003, 0x86060003, 0x865C0003, 0x8DEF0003, 0x97320003,
    0x9B6F0003, 0x9DFA0003, 0x788C0003, 0x797F0003, 0x7DA00003, 0x83C90003, 0x93040003, 0x9E7F0003,
    0x8AD60003, 0x58DF0003, 0x5F040003, 0x7C600003, 0x807E0003, 0x72620003, 0x78CA0003, 0x8CC20003,
    0x96F70003, 0x58D80003, 0x5C620003, 0x6A130003, 0x6DDA0003, 0x6F0F0003, 0x7D2F0003, 0x7E370003,
    0x964B0003, 0x52D20003, 0x808B0003, 0x51DC0003, 0x51CC0003, 0x7A1C0003, 0x7DBE0003, 0x83F10003,
    0x96750003, 0x8B800003, 0x62CF0003, 0x6A020003, 0x8AFE0003, 0x4E390003, 0x5BE70003, 0x60120003,
    0x73870003, 0x75700003, 0x53170003, 0x78FB0003, 0x4FBF0003, 0x5FA90003, 0x4E0D0003, 0x6CCC0003,
    0x65780003, 0x7D220003, 0x53C30003, 0x585E0003, 0x77010003, 0x84490003, 0x8AAA0003, 0x6BBA0003,
    0x8FB00003, 0x6C880003, 0x62FE0003, 0x82E50003, 0x63A00003, 0x75650003, 0x4EAE0003, 0x51690003,
    0x51C90003, 0x68810003, 0x7CE70003, 0x826F0003, 0x8AD20003, 0x91CF0003, 0x52F50003, 0x54420003,
    0x59730003, 0x5EEC0003, 0x65C50003, 0x6FFE0003, 0x792A0003, 0x95AD0003, 0x9A6A0003, 0x9E970003,
    0x9ECE0003, 0x529B0003, 0x66C60003, 0x6B770003, 0x8F620003, 0x5E740003, 0x61900003, 0x62000003,
    0x649A0003, 0x6F230003, 0x71490003, 0x74890003, 0x79CA0003, 0x7DF40003, 0x806F0003, 0x8F260003,
    0x84EE0003, 0x90230003, 0x934A0003, 0x52170003, 0x52A30003, 0x54BD0003, 0x70C80003, 0x88C20003,
    0x8AAA0003, 0x5EC90003, 0x5FF50003, 0x637B0003, 0x6BAE0003, 0x7C3E0003, 0x73750003, 0x4EE40003,
    0x56F90003, 0x5BE70003, 0x5DBA0003, 0x601C0003, 0x73B20003, 0x74690003, 0x7F9A0003, 0x80460003,
    0x92340003, 0x96F60003, 0x97480003, 0x98180003, 0x4F8B0003, 0x79AE0003, 0x91B40003, 0x96B80003,
    0x60E10003, 0x4E860003, 0x50DA0003, 0x5BEE0003, 0x5C3F0003, 0x65990003, 0x6A020003, 0x71CE0003,
    0x76420003, 0x84FC0003, 0x907C0003, 0x9F8D0003, 0x66880003, 0x962E0003, 0x52890003, 0x677B0003,
    0x67F30003, 0x6D410003, 0x6E9C0003, 0x74090003, 0x75590003, 0x786B0003, 0x7D100003, 0x985E0003,
    0x516D0003, 0x622E0003, 0x96780003, 0x502B0003, 0x5D190003, 0x6DEA0003, 0x8F2A0003, 0x5F8B0003,
    0x61440003, 0x68170003, 0x73870003, 0x96860003, 0x52290003, 0x540F0003, 0x5C650003, 0x66130003,
    0x674E0003, 0x68A80003, 0x6CE50003, 0x74060003, 0x75E20003, 0x7F790003, 0x88CF0003, 0x88E10003,
    0x91CC0003, 0x96E20003, 0x533F0003, 0x6EBA0003, 0x541D0003, 0x71D00003, 0x74980003, 0x85FA0003,
    0x96A30003, 0x9C570003, 0x9E9F0003, 0x67970003, 0x6DCB0003, 0x81E80003, 0x7ACB0003, 0x7B200003,
    0x7C920003, 0x72C00003, 0x70990003, 0x8B580003, 0x4EC00003, 0x83360003, 0x523A0003, 0x52070003,
    0x5EA60003, 0x62D30003, 0x7CD60003, 0x5B850003, 0x6D1E0003, 0x66B40003, 0x8F3B0003, 0x884C0003,
    0x964D0003, 0x898B0003, 0x5ED30003, 0x51400003, 0x55C00003, 0, 0, 0x585A0003, 0, 0x66740003, 0,
    0, 0x51DE0003, 0x732A0003, 0x76CA0003, 0x793C0003, 0x795E0003, 0x79650003, 0x798F0003,
    0x97560003, 0x7CBE0003, 0x7FBD0003, 0, 0x86120003, 0, 0x8AF80003, 0, 0, 0x90380003, 0x90FD0003,
    0, 0, 0, 0x98EF0003, 0x98FC0003, 0x99280003, 0x9DB40003, 0x90DE0003, 0x96B70003, 0x4FAE0003,
    0x50E70003, 0x514D0003, 0x52C90003, 0x52E40003, 0x53510003, 0x559D0003, 0x56060003, 0x56680003,
    0x58400003, 0x58A80003, 0x5C640003, 0x5C6E0003, 0x60940003, 0x61680003, 0x618E0003, 0x61F20003,
    0x654F0003, 0x65E20003, 0x66910003, 0x68850003, 0x6D770003, 0x6E1A0003, 0x6F220003, 0x716E0003,
    0x722B0003, 0x74220003, 0x78910003, 0x793E0003, 0x79490003, 0x79480003, 0x79500003, 0x79560003,
    0x795D0003, 0x798D0003, 0x798E0003, 0x7A400003, 0x7A810003, 0x7BC00003, 0x7DF40003, 0x7E090003,
    0x7E410003, 0x7F720003, 0x80050003, 0x81ED0003, 0x82790003, 0x82790003, 0x84570003, 0x89100003,
    0x89960003, 0x8B010003, 0x8B390003, 0x8CD30003, 0x8D080003, 0x8FB60003, 0x90380003, 0x96E30003,
    0x97FF0003, 0x983B0003, 0x60750003, 0x242EE0003, 0x82180003, 0, 0, 0x4E260003, 0x51B50003,
    0x51680003, 0x4F800003, 0x51450003, 0x51800003, 0x52C70003, 0x52FA0003, 0x559D0003, 0x55550003,
    0x55990003, 0x55E20003, 0x585A0003, 0x58B30003, 0x59440003, 0x59540003, 0x5A620003, 0x5B280003,
    0x5ED20003, 0x5ED90003, 0x5F690003, 0x5FAD0003, 0x60D80003, 0x614E0003, 0x61080003, 0x618E0003,
    0x61600003, 0x61F20003, 0x62340003, 0x63C40003, 0x641C0003, 0x64520003, 0x4A, 0x65560003,
    0x66740003, 0x67170003, 0x671B0003, 0x67560003, 0x6B790003, 0x6BBA0003, 0x6D410003, 0x6EDB0003,
    0x6ECB0003, 0x6F220003, 0x701E0003, 0x716E0003, 0x77A70003, 0x72350003, 0x72AF0003, 0x732A0003,
    0x74710003, 0x75060003, 0x753B0003, 0x761D0003, 0x761F0003, 0x76CA0003, 0x76DB0003, 0x76F40003,
    0x774A0003, 0x77400003, 0x78CC0003, 0x7AB10003, 0x7BC00003, 0x7C7B0003, 0x7D5B0003, 0x7DF40003,
    0x7F3E0003, 0x80050003, 0x83520003, 0x83EF0003, 0x87790003, 0x89410003, 0x89860003, 0x89960003,
    0x8ABF0003, 0x8AF80003, 0x8ACB0003, 0x8B010003, 0x8AFE0003, 0x8AED0003, 0x8B390003, 0x8B8A0003,
    0x8D080003, 0x8F380003, 0x90720003, 0x91990003, 0x92760003, 0x967C0003, 0x96E30003, 0x97560003,
    0x97DB0003, 0x97FF0003, 0x980B0003, 0x983B0003, 0x9B120003, 0x9F9C0003, 0x2284A0003,
    0x228440003, 0x233D50003, 0x3B9D0003, 0x40180003, 0x40390003, 0x252490003, 0x25CD00003,
    0x27ED30003, 0x9F430003, 0x9F8E0003, 0x430003, 0x5B40E0005D902, 0xFB1E1A01, 0x5B7110005F202,
    0xA0025, 0x5C1180005E902, 0x5C2190005E902, 0x5C11805BC1505E9, 0x5C21905BC1505E9,
    0x5B7110005D002, 0x5B8120005D002, 0x5BC150005D002, 0x5BC150005D102, 0x5BC150005D202,
    0x5BC150005D302, 0x5BC150005D402, 0x5BC150005D502, 0x5BC150005D602, 0, 0x5BC150005D802,
    0x5BC150005D902, 0x5BC150005DA02, 0x5BC150005DB02, 0x5BC150005DC02, 0, 0x5BC150005DE02, 0,
    0x5BC150005E002, 0x5BC150005E102, 0, 0x5BC150005E302, 0x5BC150005E402, 0, 0x5BC150005E602,
    0x5BC150005E702, 0x5BC150005E802, 0x5BC150005E902, 0x5BC150005EA02, 0x5B9130005D502,
    0x5BF170005D102, 0x5BF170005DB02, 0x5BF170005E402, 0x510010, 0xFE20E601, 0xFE21E601, 0xFE22E601,
    0xFE23E601, 0xFE24E601, 0xFE25E601, 0xFE26E601, 0xFE27DC01, 0xFE28DC01, 0xFE29DC01, 0xFE2ADC01,
    0xFE2BDC01, 0xFE2CDC01, 0xFE2DDC01, 0xFE2EE601, 0xFE2FE601, 0xCD0001, 0x101FDDC01, 0x620001,
    0x102E0DC01, 0x950005, 0x10376E601, 0x10377E601, 0x10378E601, 0x10379E601, 0x1037AE601,
    0x120003, 0x10A0DDC01, 0, 0x10A0FE601, 0x280003, 0x10A38E601, 0x10A390101, 0x10A3ADC01, 0x40001,
    0x10A3F0901, 0xA50002, 0x10AE5E601, 0x10AE6DC01, 0x3D0004, 0x10D24E601, 0x10D25E601,
    0x10D26E601, 0x10D27E601, 0x830002, 0x10EABE601, 0x10EACE601, 0x99000B, 0x10F46DC01,
    0x10F47DC01, 0x10F48E601, 0x10F49E601, 0x10F4AE601, 0x10F4BDC01, 0x10F4CE601, 0x10F4DDC01,
    0x10F4EDC01, 0x10F4FDC01, 0x10F50DC01, 0x310004, 0x10F82E601, 0x10F83DC01, 0x10F84E601,
    0x10F85DC01, 0xC00001, 0x110460901, 0x290001, 0x110700901, 0xE0001, 0x1107F0901, 0x1A0003,
    0x110BA0701109902, 0, 0x110BA0701109B02, 0xE0001, 0x110BA070110A502, 0xD0002, 0x110B90901,
    0x110BA0701, 0x450003, 0x11100E601, 0x11101E601, 0x11102E601, 0x2B0007, 0x111270001113102,
    0x111270001113202, 0, 0, 0, 0x111330901, 0x111340901, 0x3E0001, 0x111730701, 0x4C0001,
    0x111C00901, 0x90001, 0x111CA0701, 0x6A0002, 0x112350901, 0x112360701, 0xB20002, 0x112E90701,
    0x112EA0901, 0x500002, 0x1133B0701, 0x1133C0701, 0xE0003, 0x1133E0001134702, 0x113570001134702,
    0x1134D0901, 0x18000F, 0x11366E601, 0x11367E601, 0x11368E601, 0x11369E601, 0x1136AE601,
    0x1136BE601, 0x1136CE601, 0, 0, 0, 0x11370E601, 0x11371E601, 0x11372E601, 0x11373E601,
    0x11374E601, 0x4D0005, 0x114420901, 0, 0, 0, 0x114460701, 0x170001, 0x1145EE601, 0x5C0009,
    0x114BA000114B902, 0x114B0000114B902, 0, 0x114BD000114B902, 0, 0, 0, 0x114C20901, 0x114C30701,
    0x760007, 0x115AF000115B802, 0x115AF000115B902, 0, 0, 0, 0x115BF0901, 0x115C00701, 0x7E0001,
    0x1163F0901, 0x760002, 0x116B60901, 0x116B70701, 0x730001, 0x1172B0901, 0x8D0002, 0x118390901,
    0x1183A0701, 0x7D0001, 0x119300001193502, 0x40002, 0x1193D0901, 0x1193E0901, 0x40001,
    0x119430701, 0x9C0001, 0x119E00901, 0x530001, 0x11A340901, 0x120001, 0x11A470901, 0x510001,
    0x11A990901, 0xA50001, 0x11C3F0901, 0x820004, 0x11D420701, 0, 0x11D440901, 0x11D450901,
    0x510001, 0x11D970901, 0xD80005, 0x16AF00101, 0x16AF10101, 0x16AF20101, 0x16AF30101,
    0x16AF40101, 0x3B0007, 0x16B30E601, 0x16B31E601, 0x16B32E601, 0x16B33E601, 0x16B34E601,
    0x16B35E601, 0x16B36E601, 0xB90002, 0x16FF00601, 0x16FF10601, 0x2C0001, 0x1BC9E0101, 0xBF0015,
    0x1D165D801D15702, 0x1D165D801D15802, 0x9B0304, 0x9E0304, 0xA10304, 0xA40304, 0xA70304,
    0x1D165D801, 0x1D166D801, 0x1D1670101, 0x1D1680101, 0x1D1690101, 0, 0, 0, 0x1D16DE201,
    0x1D16ED801, 0x1D16FD801, 0x1D170D801, 0x1D171D801, 0x1D172D801, 0x80011, 0x1D17BDC01,
    0x1D17CDC01, 0x1D17DDC01, 0x1D17EDC01, 0x1D17FDC01, 0x1D180DC01, 0x1D181DC01, 0x1D182DC01, 0, 0,
    0x1D185E601, 0x1D186E601, 0x1D187E601, 0x1D188E601, 0x1D189E601, 0x1D18ADC01, 0x1D18BDC01,
    0x1E0004, 0x1D1AAE601, 0x1D1ABE601, 0x1D1ACE601, 0x1D1ADE601, 0xD0006, 0x1D165D801D1B902,
    0x1D165D801D1BA02, 0xAA0304, 0xAD0304, 0xB00304, 0xB30304, 0x810003, 0x1D242E601, 0x1D243E601,
    0x1D244E601, 0x3B002B, 0x1E000E601, 0x1E001E601, 0x1E002E601, 0x1E003E601, 0x1E004E601,
    0x1E005E601, 0x1E006E601, 0, 0x1E008E601, 0x1E009E601, 0x1E00AE601, 0x1E00BE601, 0x1E00CE601,
    0x1E00DE601, 0x1E00EE601, 0x1E00FE601, 0x1E010E601, 0x1E011E601, 0x1E012E601, 0x1E013E601,
    0x1E014E601, 0x1E015E601, 0x1E016E601, 0x1E017E601, 0x1E018E601, 0, 0, 0x1E01BE601, 0x1E01CE601,
    0x1E01DE601, 0x1E01EE601, 0x1E01FE601, 0x1E020E601, 0x1E021E601, 0, 0x1E023E601, 0x1E024E601, 0,
    0x1E026E601, 0x1E027E601, 0x1E028E601, 0x1E029E601, 0x1E02AE601, 0x850007, 0x1E130E601,
    0x1E131E601, 0x1E132E601, 0x1E133E601, 0x1E134E601, 0x1E135E601, 0x1E136E601, 0x770001,
    0x1E2AEE601, 0x3D0004, 0x1E2ECE601, 0x1E2EDE601, 0x1E2EEE601, 0x1E2EFE601, 0x600007,
    0x1E8D0DC01, 0x1E8D1DC01, 0x1E8D2DC01, 0x1E8D3DC01, 0x1E8D4DC01, 0x1E8D5DC01, 0x1E8D6DC01,
    0x6D0007, 0x1E944E601, 0x1E945E601, 0x1E946E601, 0x1E947E601, 0x1E948E601, 0x1E949E601,
    0x1E94A0701,
];

/// A packed stream of descriptor words.
pub const NFD_DATA_03: [u64; 545] = [
    0x350190, 0x4E3D0003, 0x4E380003, 0x4E410003, 0x201220003, 0x4F600003, 0x4FAE0003, 0x4FBB0003,
    0x50020003, 0x507A0003, 0x50990003, 0x50E70003, 0x50CF0003, 0x349E0003, 0x2063A0003, 0x514D0003,
    0x51540003, 0x51640003, 0x51770003, 0x2051C0003, 0x34B90003, 0x51670003, 0x518D0003,
    0x2054B0003, 0x51970003, 0x51A40003, 0x4ECC0003, 0x51AC0003, 0x51B50003, 0x291DF0003,
    0x51F50003, 0x52030003, 0x34DF0003, 0x523B0003, 0x52460003, 0x52720003, 0x52770003, 0x35150003,
    0x52C70003, 0x52C90003, 0x52E40003, 0x52FA0003, 0x53050003, 0x53060003, 0x53170003, 0x53490003,
    0x53510003, 0x535A0003, 0x53730003, 0x537D0003, 0x537F0003, 0x537F0003, 0x537F0003, 0x20A2C0003,
    0x70700003, 0x53CA0003, 0x53DF0003, 0x20B630003, 0x53EB0003, 0x53F10003, 0x54060003, 0x549E0003,
    0x54380003, 0x54480003, 0x54680003, 0x54A20003, 0x54F60003, 0x55100003, 0x55530003, 0x55630003,
    0x55840003, 0x55840003, 0x55990003, 0x55AB0003, 0x55B30003, 0x55C20003, 0x57160003, 0x56060003,
    0x57170003, 0x56510003, 0x56740003, 0x52070003, 0x58EE0003, 0x57CE0003, 0x57F40003, 0x580D0003,
    0x578B0003, 0x58320003, 0x58310003, 0x58AC0003, 0x214E40003, 0x58F20003, 0x58F70003, 0x59060003,
    0x591A0003, 0x59220003, 0x59620003, 0x216A80003, 0x216EA0003, 0x59EC0003, 0x5A1B0003,
    0x5A270003, 0x59D80003, 0x5A660003, 0x36EE0003, 0x36FC0003, 0x5B080003, 0x5B3E0003, 0x5B3E0003,
    0x219C80003, 0x5BC30003, 0x5BD80003, 0x5BE70003, 0x5BF30003, 0x21B180003, 0x5BFF0003,
    0x5C060003, 0x5F530003, 0x5C220003, 0x37810003, 0x5C600003, 0x5C6E0003, 0x5CC00003, 0x5C8D0003,
    0x21DE40003, 0x5D430003, 0x21DE60003, 0x5D6E0003, 0x5D6B0003, 0x5D7C0003, 0x5DE10003,
    0x5DE20003, 0x382F0003, 0x5DFD0003, 0x5E280003, 0x5E3D0003, 0x5E690003, 0x38620003, 0x221830003,
    0x387C0003, 0x5EB00003, 0x5EB30003, 0x5EB60003, 0x5ECA0003, 0x2A3920003, 0x5EFE0003,
    0x223310003, 0x223310003, 0x82010003, 0x5F220003, 0x5F220003, 0x38C70003, 0x232B80003,
    0x261DA0003, 0x5F620003, 0x5F6B0003, 0x38E30003, 0x5F9A0003, 0x5FCD0003, 0x5FD70003, 0x5FF90003,
    0x60810003, 0x393A0003, 0x391C0003, 0x60940003, 0x226D40003, 0x60C70003, 0x61480003, 0x614C0003,
    0x614E0003, 0x614C0003, 0x617A0003, 0x618E0003, 0x61B20003, 0x61A40003, 0x61AF0003, 0x61DE0003,
    0x61F20003, 0x61F60003, 0x62100003, 0x621B0003, 0x625D0003, 0x62B10003, 0x62D40003, 0x63500003,
    0x22B0C0003, 0x633D0003, 0x62FC0003, 0x63680003, 0x63830003, 0x63E40003, 0x22BF10003,
    0x64220003, 0x63C50003, 0x63A90003, 0x3A2E0003, 0x64690003, 0x647E0003, 0x649D0003, 0x64770003,
    0x3A6C0003, 0x654F0003, 0x656C0003, 0x2300A0003, 0x65E30003, 0x66F80003, 0x66490003, 0x3B190003,
    0x66910003, 0x3B080003, 0x3AE40003, 0x51920003, 0x51950003, 0x67000003, 0x669C0003, 0x80AD0003,
    0x43D90003, 0x67170003, 0x671B0003, 0x67210003, 0x675E0003, 0x67530003, 0x233C30003, 0x3B490003,
    0x67FA0003, 0x67850003, 0x68520003, 0x68850003, 0x2346D0003, 0x688E0003, 0x681F0003, 0x69140003,
    0x3B9D0003, 0x69420003, 0x69A30003, 0x69EA0003, 0x6AA80003, 0x236A30003, 0x6ADB0003, 0x3C180003,
    0x6B210003, 0x238A70003, 0x6B540003, 0x3C4E0003, 0x6B720003, 0x6B9F0003, 0x6BBA0003, 0x6BBB0003,
    0x23A8D0003, 0x21D0B0003, 0x23AFA0003, 0x6C4E0003, 0x23CBC0003, 0x6CBF0003, 0x6CCD0003,
    0x6C670003, 0x6D160003, 0x6D3E0003, 0x6D770003, 0x6D410003, 0x6D690003, 0x6D780003, 0x6D850003,
    0x23D1E0003, 0x6D340003, 0x6E2F0003, 0x6E6E0003, 0x3D330003, 0x6ECB0003, 0x6EC70003,
    0x23ED10003, 0x6DF90003, 0x6F6E0003, 0x23F5E0003, 0x23F8E0003, 0x6FC60003, 0x70390003,
    0x701E0003, 0x701B0003, 0x3D960003, 0x704A0003, 0x707D0003, 0x70770003, 0x70AD0003, 0x205250003,
    0x71450003, 0x242630003, 0x719C0003, 0x243AB0003, 0x72280003, 0x72350003, 0x72500003,
    0x246080003, 0x72800003, 0x72950003, 0x247350003, 0x248140003, 0x737A0003, 0x738B0003,
    0x3EAC0003, 0x73A50003, 0x3EB80003, 0x3EB80003, 0x74470003, 0x745C0003, 0x74710003, 0x74850003,
    0x74CA0003, 0x3F1B0003, 0x75240003, 0x24C360003, 0x753E0003, 0x24C920003, 0x75700003,
    0x2219F0003, 0x76100003, 0x24FA10003, 0x24FB80003, 0x250440003, 0x3FFC0003, 0x40080003,
    0x76F40003, 0x250F30003, 0x250F20003, 0x251190003, 0x251330003, 0x771E0003, 0x771F0003,
    0x771F0003, 0x774A0003, 0x40390003, 0x778B0003, 0x40460003, 0x40960003, 0x2541D0003, 0x784E0003,
    0x788C0003, 0x78CC0003, 0x40E30003, 0x256260003, 0x79560003, 0x2569A0003, 0x256C50003,
    0x798F0003, 0x79EB0003, 0x412F0003, 0x7A400003, 0x7A4A0003, 0x7A4F0003, 0x2597C0003,
    0x25AA70003, 0x25AA70003, 0x7AEE0003, 0x42020003, 0x25BAB0003, 0x7BC60003, 0x7BC90003,
    0x42270003, 0x25C800003, 0x7CD20003, 0x42A00003, 0x7CE80003, 0x7CE30003, 0x7D000003,
    0x25F860003, 0x7D630003, 0x43010003, 0x7DC70003, 0x7E020003, 0x7E450003, 0x43340003,
    0x262280003, 0x262470003, 0x43590003, 0x262D90003, 0x7F7A0003, 0x2633E0003, 0x7F950003,
    0x7FFA0003, 0x80050003, 0x264DA0003, 0x265230003, 0x80600003, 0x265A80003, 0x80700003,
    0x2335F0003, 0x43D50003, 0x80B20003, 0x81030003, 0x440B0003, 0x813E0003, 0x5AB50003,
    0x267A70003, 0x267B50003, 0x233930003, 0x2339C0003, 0x82010003, 0x82040003, 0x8F9E0003,
    0x446B0003, 0x82910003, 0x8E, 0x828B0003, 0x829D0003, 0x52B30003, 0x82B10003, 0x82B30003,
    0x82BD0003, 0x82E60003, 0x26B3C0003, 0x82E50003, 0x831D0003, 0x83630003, 0x83AD0003, 0x83230003,
    0x83BD0003, 0x83E70003, 0x84570003, 0x83530003, 0x83CA0003, 0x83CC0003, 0x83DC0003, 0x26C360003,
    0x26D6B0003, 0x26CD50003, 0x452B0003, 0x84F10003, 0x84F30003, 0x85160003, 0x273CA0003,
    0x85640003, 0x26F2C0003, 0x455D0003, 0x45610003, 0x26FB10003, 0x270D20003, 0x456B0003,
    0x86500003, 0x865C0003, 0x86670003, 0x86690003, 0x86A90003, 0x86880003, 0x870E0003, 0x86E20003,
    0x87790003, 0x87280003, 0x876B0003, 0x87860003, 0x45D70003, 0x87E10003, 0x88010003, 0x45F90003,
    0x88600003, 0x88630003, 0x276670003, 0x88D70003, 0x88DE0003, 0x46350003, 0x88FA0003, 0x34BB0003,
    0x278AE0003, 0x279660003, 0x46BE0003, 0x46C70003, 0x8AA00003, 0x8AED0003, 0x8B8A0003,
    0x8C550003, 0x27CA80003, 0x8CAB0003, 0x8CC10003, 0x8D1B0003, 0x8D770003, 0x27F2F0003,
    0x208040003, 0x8DCB0003, 0x8DBC0003, 0x8DF00003, 0x208DE0003, 0x8ED40003, 0x8F380003,
    0x285D20003, 0x285ED0003, 0x90940003, 0x90F10003, 0x91110003, 0x2872E0003, 0x911B0003,
    0x92380003, 0x92D70003, 0x92D80003, 0x927C0003, 0x93F90003, 0x94150003, 0x28BFA0003, 0x958B0003,
    0x49950003, 0x95B70003, 0x28D770003, 0x49E60003, 0x96C30003, 0x5DB20003, 0x97230003,
    0x291450003, 0x2921A0003, 0x4A6E0003, 0x4A760003, 0x97E00003, 0x2940A0003, 0x4AB20003,
    0x294960003, 0x980B0003, 0x980B0003, 0x98290003, 0x295B60003, 0x98E20003, 0x4B330003,
    0x99290003, 0x99A70003, 0x99C20003, 0x99FE0003, 0x4BCE0003, 0x29B300003, 0x9B120003, 0x9C400003,
    0x9CFD0003, 0x4CCE0003, 0x4CED0003, 0x9D670003, 0x2A0CE0003, 0x4CF80003, 0x2A1050003,
    0x2A20E0003, 0x2A2910003, 0x9EBB0003, 0x4D560003, 0x9EF90003, 0x9EFE0003, 0x9F050003,
    0x9F0F0003, 0x9F160003, 0x9F3B0003, 0x2A6000003, 0x620000,
];

/// Packed codepoints of the decompositions stored out of line.
pub const NFD_EXPANSIONS_00: [u32; 182] = [
    0x300E6, 0x301E6, 0x313E6, 0x308E6, 0x301E6, 0xF7181, 0xF7282, 0xF7181, 0xF7484, 0xF7181,
    0xF8082, 0x3B100, 0x313E6, 0x300E6, 0x345F0, 0x3B100, 0x314E6, 0x300E6, 0x345F0, 0x3B100,
    0x313E6, 0x301E6, 0x345F0, 0x3B100, 0x314E6, 0x301E6, 0x345F0, 0x3B100, 0x313E6, 0x342E6,
    0x345F0, 0x3B100, 0x314E6, 0x342E6, 0x345F0, 0x39100, 0x313E6, 0x300E6, 0x345F0, 0x39100,
    0x314E6, 0x300E6, 0x345F0, 0x39100, 0x313E6, 0x301E6, 0x345F0, 0x39100, 0x314E6, 0x301E6,
    0x345F0, 0x39100, 0x313E6, 0x342E6, 0x345F0, 0x39100, 0x314E6, 0x342E6, 0x345F0, 0x3B700,
    0x313E6, 0x300E6, 0x345F0, 0x3B700, 0x314E6, 0x300E6, 0x345F0, 0x3B700, 0x313E6, 0x301E6,
    0x345F0, 0x3B700, 0x314E6, 0x301E6, 0x345F0, 0x3B700, 0x313E6, 0x342E6, 0x345F0, 0x3B700,
    0x314E6, 0x342E6, 0x345F0, 0x39700, 0x313E6, 0x300E6, 0x345F0, 0x39700, 0x314E6, 0x300E6,
    0x345F0, 0x39700, 0x313E6, 0x301E6, 0x345F0, 0x39700, 0x314E6, 0x301E6, 0x345F0, 0x39700,
    0x313E6, 0x342E6, 0x345F0, 0x39700, 0x314E6, 0x342E6, 0x345F0, 0x3C900, 0x313E6, 0x300E6,
    0x345F0, 0x3C900, 0x314E6, 0x300E6, 0x345F0, 0x3C900, 0x313E6, 0x301E6, 0x345F0, 0x3C900,
    0x314E6, 0x301E6, 0x345F0, 0x3C900, 0x313E6, 0x342E6, 0x345F0, 0x3C900, 0x314E6, 0x342E6,
    0x345F0, 0x3A900, 0x313E6, 0x300E6, 0x345F0, 0x3A900, 0x314E6, 0x300E6, 0x345F0, 0x3A900,
    0x313E6, 0x301E6, 0x345F0, 0x3A900, 0x314E6, 0x301E6, 0x345F0, 0x3A900, 0x313E6, 0x342E6,
    0x345F0, 0x3A900, 0x314E6, 0x342E6, 0x345F0, 0x1D15800, 0x1D165D8, 0x1D16ED8, 0x1D15800,
    0x1D165D8, 0x1D16FD8, 0x1D15800, 0x1D165D8, 0x1D170D8, 0x1D15800, 0x1D165D8, 0x1D171D8,
    0x1D15800, 0x1D165D8, 0x1D172D8, 0x1D1B900, 0x1D165D8, 0x1D16ED8, 0x1D1BA00, 0x1D165D8,
    0x1D16ED8, 0x1D1B900, 0x1D165D8, 0x1D16FD8, 0x1D1BA00, 0x1D165D8, 0x1D16FD8,
];

/// The page index of NFD.
pub open spec fn nfd_index() -> Seq<u8> {
    unfold_runs(NFD_INDEX_00@, 0)
}

/// The descriptor words of NFD.
pub open spec fn nfd_data() -> Seq<u64> {
    expand(NFD_DATA_00@, 0) + expand(NFD_DATA_01@, 0) + expand(NFD_DATA_02@, 0)
        + expand(NFD_DATA_03@, 0)
}

/// The expansions of NFD.
pub open spec fn nfd_expansions() -> Seq<u32> {
    NFD_EXPANSIONS_00@
}

/// The NFD tables.
pub open spec fn nfd_tables() -> Tables {
    Tables {
        index: nfd_index(),
        data: nfd_data(),
        expansions: nfd_expansions(),
        continuous_block_end: 0xFFF,
    }
}

fn build_index() -> (r: Vec<u8>)
    ensures
        r@ == nfd_index(),
{
    let mut r: Vec<u8> = Vec::with_capacity(1525);
    unfold_runs_into(&mut r, &NFD_INDEX_00);
    r
}

fn build_data() -> (r: Vec<u64>)
    ensures
        r@ == nfd_data(),
{
    let mut r: Vec<u64> = Vec::with_capacity(16128);
    expand_into(&mut r, &NFD_DATA_00);
    expand_into(&mut r, &NFD_DATA_01);
    expand_into(&mut r, &NFD_DATA_02);
    expand_into(&mut r, &NFD_DATA_03);
    r
}

fn build_expansions() -> (r: Vec<u32>)
    ensures
        r@ == nfd_expansions(),
{
    let mut r: Vec<u32> = Vec::with_capacity(182);
    extend_from(&mut r, &NFD_EXPANSIONS_00);
    r
}

/// The data of NFD normalization.
pub fn nfd() -> (r: DecompositionData)
    ensures
        r@ == nfd_tables(),
{
    DecompositionData {
        index: build_index(),
        data: build_data(),
        expansions: build_expansions(),
        continuous_block_end: 0xFFF,
    }
}

impl DecomposingNormalizer {
    /// The NFD normalizer: canonical decomposition.
    pub fn new_nfd() -> (r: Self)
        requires
            nfd_tables().well_formed(),
        ensures
            r@ == nfd_tables(),
            r.wf(),
    {
        DecomposingNormalizer::from_baked(nfd())
    }
}

/// The NFD normalizer: canonical decomposition.
pub fn new_nfd() -> (r: DecomposingNormalizer)
    requires
        nfd_tables().well_formed(),
    ensures
        r@ == nfd_tables(),
        r.wf(),
{
    DecomposingNormalizer::new_nfd()
}

/// The NFD normalizer: canonical decomposition.
pub fn nfd_normalizer() -> (r: DecomposingNormalizer)
    requires
        nfd_tables().well_formed(),
    ensures
        r@ == nfd_tables(),
        r.wf(),
{
    DecomposingNormalizer::new_nfd()
}

/// The NFD normalizer, made after its tables have been found well formed;
/// nothing if they are not.
pub fn try_new_nfd() -> (r: Option<DecomposingNormalizer>)
    ensures
        r is Some <==> nfd_tables().well_formed(),
        r is Some ==> r->0@ == nfd_tables() && r->0.wf(),
{
    DecomposingNormalizer::try_from_baked(nfd())
}

} // verus!
