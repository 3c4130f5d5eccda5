//! The names of the booster collations of the MTGA client.

use vstd::prelude::*;

verus! {

/// The short name of a booster collation, as the `Wotc.Mtga.Wrapper.CollationMapping` type of
/// the client gives it; "unknown" for any other collation id.
pub open spec fn collation_short_name(collation_id: i32) -> Seq<char> {
    match collation_id {
        62242 => "kld"@,
        62979 => "aer"@,
        100003 => "akh"@,
        100004 => "hou"@,
        100005 => "xln"@,
        100006 => "rix"@,
        100007 => "dar"@,
        100008 => "m19"@,
        100009 => "grn"@,
        100010 => "rna"@,
        100013 => "war"@,
        100014 => "m20"@,
        100015 => "eld"@,
        100016 => "thb"@,
        100017 => "iko"@,
        100018 => "m21"@,
        100019 => "akr"@,
        100020 => "znr"@,
        100021 => "klr"@,
        100022 => "khm"@,
        100023 => "stx"@,
        100024 => "afr"@,
        100025 => "mid"@,
        100026 => "vow"@,
        100027 => "neo"@,
        100028 => "snc"@,
        100029 => "hbg"@,
        100030 => "dmu"@,
        100031 => "bro"@,
        100032 => "one"@,
        100033 => "sir"@,
        100037 => "mom"@,
        100038 => "mat"@,
        100039 => "ltr"@,
        100040 => "woe"@,
        100041 => "lci"@,
        100042 => "ktk"@,
        100043 => "mkm"@,
        100044 => "otj"@,
        200001 => "kld_draft"@,
        200002 => "aer_draft"@,
        200003 => "akh_draft"@,
        200004 => "hou_draft"@,
        200005 => "xln_draft"@,
        200006 => "rix_draft"@,
        200007 => "dar_draft"@,
        200008 => "m19_draft"@,
        200009 => "grn_draft"@,
        200010 => "rna_draft"@,
        200013 => "war_draft"@,
        200014 => "m20_draft"@,
        200015 => "eld_draft"@,
        200016 => "thb_draft"@,
        200017 => "iko_draft"@,
        200018 => "m21_draft"@,
        200019 => "akr_draft"@,
        200020 => "znr_draft"@,
        200021 => "klr_draft"@,
        200022 => "khm_draft"@,
        200023 => "stx_draft"@,
        200024 => "afr_draft"@,
        200025 => "mid_draft"@,
        200026 => "vow_draft"@,
        200027 => "neo_draft"@,
        200028 => "snc_draft"@,
        200029 => "hbg_draft"@,
        200030 => "dmu_draft"@,
        200031 => "bro_draft"@,
        200032 => "one_draft"@,
        200033 => "sir_bonus_typal"@,
        200034 => "sir_bonus_flashback"@,
        200035 => "sir_bonus_morbid"@,
        200036 => "sir_bonus_allstar"@,
        200037 => "mom_draft"@,
        200038 => "mat_draft"@,
        200039 => "ltr_draft"@,
        200040 => "woe_draft"@,
        200041 => "lci_draft"@,
        200042 => "ktk_draft"@,
        200043 => "mkm_draft"@,
        200044 => "otj_draft"@,
        300000 => "cube"@,
        300001 => "tinkererscube"@,
        300002 => "chromaticcube"@,
        300003 => "dbl"@,
        300004 => "mixedup_1"@,
        300005 => "mixedup_2"@,
        300006 => "mixedup_3"@,
        300007 => "creaturecube"@,
        300010 => "test_draft_1"@,
        300011 => "test_draft_2"@,
        300012 => "test_draft_3"@,
        300020 => "remixdraft_artifact"@,
        400000 => "alchemy"@,
        400026 => "y22_mid"@,
        400027 => "y22_neo"@,
        400028 => "y22_snc"@,
        400030 => "y23_dmu"@,
        400031 => "y23_bro"@,
        400032 => "y23_one"@,
        400040 => "y24_woe"@,
        400041 => "y24_lci"@,
        400043 => "y24_mkm"@,
        500000 => "mythic"@,
        500015 => "eld_mythic"@,
        500016 => "thb_mythic"@,
        500017 => "iko_mythic"@,
        500018 => "m21_mythic"@,
        500020 => "znr_mythic"@,
        500022 => "khm_mythic"@,
        500023 => "stx_mythic"@,
        500024 => "afr_mythic"@,
        500025 => "mid_mythic"@,
        500026 => "vow_mythic"@,
        500027 => "neo_mythic"@,
        500028 => "snc_mythic"@,
        500029 => "hbg_mythic"@,
        500030 => "dmu_mythic"@,
        500031 => "bro_mythic"@,
        500032 => "one_mythic"@,
        500033 => "sir_mythic"@,
        500037 => "mom_mythic"@,
        500039 => "ltr_mythic"@,
        500040 => "woe_mythic"@,
        500041 => "lci_mythic"@,
        500042 => "ktk_mythic"@,
        500043 => "mkm_mythic"@,
        500044 => "otj_mythic"@,
        600028 => "y22_snc_draft"@,
        600030 => "y23_dmu_draft"@,
        600031 => "y23_bro_draft"@,
        600032 => "y23_one_draft"@,
        600040 => "y24_woe_draft"@,
        600041 => "y24_lci_draft"@,
        600043 => "y24_mkm_draft"@,
        700028 => "snc_rebalanced"@,
        900980 => "goldenbooster_standard"@,
        999999 => "futuresetplaceholder"@,
        _ => "unknown"@,
    }
}

/// Each set's draft collation is numbered 100000 above its booster collation and is named
/// like it with `_draft` appended, for every booster collation from Amonkhet on that has a
/// name; Shadows over Innistrad Remastered (100033) has bonus sheets in its place.
pub proof fn lemma_draft_collation_names(c: i32)
    requires
        100003 <= c <= 100044,
        c != 100033,
        collation_short_name(c) != "unknown"@,
    ensures
        collation_short_name((c + 100000) as i32) == collation_short_name(c) + "_draft"@,
{
    reveal_strlit("_draft");
    match c {
        100003 => {
            reveal_strlit("akh");
            reveal_strlit("akh_draft");
            assert("akh_draft"@ =~= "akh"@ + "_draft"@);
        },
        100004 => {
            reveal_strlit("hou");
            reveal_strlit("hou_draft");
            assert("hou_draft"@ =~= "hou"@ + "_draft"@);
        },
        100005 => {
            reveal_strlit("xln");
            reveal_strlit("xln_draft");
            assert("xln_draft"@ =~= "xln"@ + "_draft"@);
        },
        100006 => {
            reveal_strlit("rix");
            reveal_strlit("rix_draft");
            assert("rix_draft"@ =~= "rix"@ + "_draft"@);
        },
        100007 => {
            reveal_strlit("dar");
            reveal_strlit("dar_draft");
            assert("dar_draft"@ =~= "dar"@ + "_draft"@);
        },
        100008 => {
            reveal_strlit("m19");
            reveal_strlit("m19_draft");
            assert("m19_draft"@ =~= "m19"@ + "_draft"@);
        },
        100009 => {
            reveal_strlit("grn");
            reveal_strlit("grn_draft");
            assert("grn_draft"@ =~= "grn"@ + "_draft"@);
        },
        100010 => {
            reveal_strlit("rna");
            reveal_strlit("rna_draft");
            assert("rna_draft"@ =~= "rna"@ + "_draft"@);
        },
        100013 => {
            reveal_strlit("war");
            reveal_strlit("war_draft");
            assert("war_draft"@ =~= "war"@ + "_draft"@);
        },
        100014 => {
            reveal_strlit("m20");
            reveal_strlit("m20_draft");
            assert("m20_draft"@ =~= "m20"@ + "_draft"@);
        },
        100015 => {
            reveal_strlit("eld");
            reveal_strlit("eld_draft");
            assert("eld_draft"@ =~= "eld"@ + "_draft"@);
        },
        100016 => {
            reveal_strlit("thb");
            reveal_strlit("thb_draft");
            assert("thb_draft"@ =~= "thb"@ + "_draft"@);
        },
        100017 => {
            reveal_strlit("iko");
            reveal_strlit("iko_draft");
            assert("iko_draft"@ =~= "iko"@ + "_draft"@);
        },
        100018 => {
            reveal_strlit("m21");
            reveal_strlit("m21_draft");
            assert("m21_draft"@ =~= "m21"@ + "_draft"@);
        },
        100019 => {
            reveal_strlit("akr");
            reveal_strlit("akr_draft");
            assert("akr_draft"@ =~= "akr"@ + "_draft"@);
        },
        100020 => {
            reveal_strlit("znr");
            reveal_strlit("znr_draft");
            assert("znr_draft"@ =~= "znr"@ + "_draft"@);
        },
        100021 => {
            reveal_strlit("klr");
            reveal_strlit("klr_draft");
            assert("klr_draft"@ =~= "klr"@ + "_draft"@);
        },
        100022 => {
            reveal_strlit("khm");
            reveal_strlit("khm_draft");
            assert("khm_draft"@ =~= "khm"@ + "_draft"@);
        },
        100023 => {
            reveal_strlit("stx");
            reveal_strlit("stx_draft");
            assert("stx_draft"@ =~= "stx"@ + "_draft"@);
        },
        100024 => {
            reveal_strlit("afr");
            reveal_strlit("afr_draft");
            assert("afr_draft"@ =~= "afr"@ + "_draft"@);
        },
        100025 => {
            reveal_strlit("mid");
            reveal_strlit("mid_draft");
            assert("mid_draft"@ =~= "mid"@ + "_draft"@);
        },
        100026 => {
            reveal_strlit("vow");
            reveal_strlit("vow_draft");
            assert("vow_draft"@ =~= "vow"@ + "_draft"@);
        },
        100027 => {
            reveal_strlit("neo");
            reveal_strlit("neo_draft");
            assert("neo_draft"@ =~= "neo"@ + "_draft"@);
        },
        100028 => {
            reveal_strlit("snc");
            reveal_strlit("snc_draft");
            assert("snc_draft"@ =~= "snc"@ + "_draft"@);
        },
        100029 => {
            reveal_strlit("hbg");
            reveal_strlit("hbg_draft");
            assert("hbg_draft"@ =~= "hbg"@ + "_draft"@);
        },
        100030 => {
            reveal_strlit("dmu");
            reveal_strlit("dmu_draft");
            assert("dmu_draft"@ =~= "dmu"@ + "_draft"@);
        },
        100031 => {
            reveal_strlit("bro");
            reveal_strlit("bro_draft");
            assert("bro_draft"@ =~= "bro"@ + "_draft"@);
        },
        100032 => {
            reveal_strlit("one");
            reveal_strlit("one_draft");
            assert("one_draft"@ =~= "one"@ + "_draft"@);
        },
        100037 => {
            reveal_strlit("mom");
            reveal_strlit("mom_draft");
            assert("mom_draft"@ =~= "mom"@ + "_draft"@);
        },
        100038 => {
            reveal_strlit("mat");
            reveal_strlit("mat_draft");
            assert("mat_draft"@ =~= "mat"@ + "_draft"@);
        },
        100039 => {
            reveal_strlit("ltr");
            reveal_strlit("ltr_draft");
            assert("ltr_draft"@ =~= "ltr"@ + "_draft"@);
        },
        100040 => {
            reveal_strlit("woe");
            reveal_strlit("woe_draft");
            assert("woe_draft"@ =~= "woe"@ + "_draft"@);
        },
        100041 => {
            reveal_strlit("lci");
            reveal_strlit("lci_draft");
            assert("lci_draft"@ =~= "lci"@ + "_draft"@);
        },
        100042 => {
            reveal_strlit("ktk");
            reveal_strlit("ktk_draft");
            assert("ktk_draft"@ =~= "ktk"@ + "_draft"@);
        },
        100043 => {
            reveal_strlit("mkm");
            reveal_strlit("mkm_draft");
            assert("mkm_draft"@ =~= "mkm"@ + "_draft"@);
        },
        100044 => {
            reveal_strlit("otj");
            reveal_strlit("otj_draft");
            assert("otj_draft"@ =~= "otj"@ + "_draft"@);
        },
        _ => {},
    }
}


/// Different known booster collations have different short names, and none is called
/// "unknown": a short name tells its collation apart from every other one.
pub proof fn lemma_collation_names_are_distinct(a: i32, b: i32)
    requires
        a != b,
        collation_short_name(a) != "unknown"@,
    ensures
        collation_short_name(a) != collation_short_name(b),
{
    lemma_collation_read_back(a);
    if collation_short_name(b) != "unknown"@ {
        lemma_collation_read_back(b);
    }
}

/// The collation whose short name is `name`, for the names of known collations.
spec fn collation_named(name: Seq<char>) -> Option<i32> {
    if name == "kld"@ {
        Some(62242)
    } else if name == "aer"@ {
        Some(62979)
    } else if name == "akh"@ {
        Some(100003)
    } else if name == "hou"@ {
        Some(100004)
    } else if name == "xln"@ {
        Some(100005)
    } else if name == "rix"@ {
        Some(100006)
    } else if name == "dar"@ {
        Some(100007)
    } else if name == "m19"@ {
        Some(100008)
    } else if name == "grn"@ {
        Some(100009)
    } else if name == "rna"@ {
        Some(100010)
    } else if name == "war"@ {
        Some(100013)
    } else if name == "m20"@ {
        Some(100014)
    } else if name == "eld"@ {
        Some(100015)
    } else if name == "thb"@ {
        Some(100016)
    } else if name == "iko"@ {
        Some(100017)
    } else if name == "m21"@ {
        Some(100018)
    } else if name == "akr"@ {
        Some(100019)
    } else if name == "znr"@ {
        Some(100020)
    } else if name == "klr"@ {
        Some(100021)
    } else if name == "khm"@ {
        Some(100022)
    } else if name == "stx"@ {
        Some(100023)
    } else if name == "afr"@ {
        Some(100024)
    } else if name == "mid"@ {
        Some(100025)
    } else if name == "vow"@ {
        Some(100026)
    } else if name == "neo"@ {
        Some(100027)
    } else if name == "snc"@ {
        Some(100028)
    } else if name == "hbg"@ {
        Some(100029)
    } else if name == "dmu"@ {
        Some(100030)
    } else if name == "bro"@ {
        Some(100031)
    } else if name == "one"@ {
        Some(100032)
    } else if name == "sir"@ {
        Some(100033)
    } else if name == "mom"@ {
        Some(100037)
    } else if name == "mat"@ {
        Some(100038)
    } else if name == "ltr"@ {
        Some(100039)
    } else if name == "woe"@ {
        Some(100040)
    } else if name == "lci"@ {
        Some(100041)
    } else if name == "ktk"@ {
        Some(100042)
    } else if name == "mkm"@ {
        Some(100043)
    } else if name == "otj"@ {
        Some(100044)
    } else if name == "kld_draft"@ {
        Some(200001)
    } else if name == "aer_draft"@ {
        Some(200002)
    } else if name == "akh_draft"@ {
        Some(200003)
    } else if name == "hou_draft"@ {
        Some(200004)
    } else if name == "xln_draft"@ {
        Some(200005)
    } else if name == "rix_draft"@ {
        Some(200006)
    } else if name == "dar_draft"@ {
        Some(200007)
    } else if name == "m19_draft"@ {
        Some(200008)
    } else if name == "grn_draft"@ {
        Some(200009)
    } else if name == "rna_draft"@ {
        Some(200010)
    } else if name == "war_draft"@ {
        Some(200013)
    } else if name == "m20_draft"@ {
        Some(200014)
    } else if name == "eld_draft"@ {
        Some(200015)
    } else if name == "thb_draft"@ {
        Some(200016)
    } else if name == "iko_draft"@ {
        Some(200017)
    } else if name == "m21_draft"@ {
        Some(200018)
    } else if name == "akr_draft"@ {
        Some(200019)
    } else if name == "znr_draft"@ {
        Some(200020)
    } else if name == "klr_draft"@ {
        Some(200021)
    } else if name == "khm_draft"@ {
        Some(200022)
    } else if name == "stx_draft"@ {
        Some(200023)
    } else if name == "afr_draft"@ {
        Some(200024)
    } else if name == "mid_draft"@ {
        Some(200025)
    } else if name == "vow_draft"@ {
        Some(200026)
    } else if name == "neo_draft"@ {
        Some(200027)
    } else if name == "snc_draft"@ {
        Some(200028)
    } else if name == "hbg_draft"@ {
        Some(200029)
    } else if name == "dmu_draft"@ {
        Some(200030)
    } else if name == "bro_draft"@ {
        Some(200031)
    } else if name == "one_draft"@ {
        Some(200032)
    } else if name == "sir_bonus_typal"@ {
        Some(200033)
    } else if name == "sir_bonus_flashback"@ {
        Some(200034)
    } else if name == "sir_bonus_morbid"@ {
        Some(200035)
    } else if name == "sir_bonus_allstar"@ {
        Some(200036)
    } else if name == "mom_draft"@ {
        Some(200037)
    } else if name == "mat_draft"@ {
        Some(200038)
    } else if name == "ltr_draft"@ {
        Some(200039)
    } else if name == "woe_draft"@ {
        Some(200040)
    } else if name == "lci_draft"@ {
        Some(200041)
    } else if name == "ktk_draft"@ {
        Some(200042)
    } else if name == "mkm_draft"@ {
        Some(200043)
    } else if name == "otj_draft"@ {
        Some(200044)
    } else if name == "cube"@ {
        Some(300000)
    } else if name == "tinkererscube"@ {
        Some(300001)
    } else if name == "chromaticcube"@ {
        Some(300002)
    } else if name == "dbl"@ {
        Some(300003)
    } else if name == "mixedup_1"@ {
        Some(300004)
    } else if name == "mixedup_2"@ {
        Some(300005)
    } else if name == "mixedup_3"@ {
        Some(300006)
    } else if name == "creaturecube"@ {
        Some(300007)
    } else if name == "test_draft_1"@ {
        Some(300010)
    } else if name == "test_draft_2"@ {
        Some(300011)
    } else if name == "test_draft_3"@ {
        Some(300012)
    } else if name == "remixdraft_artifact"@ {
        Some(300020)
    } else if name == "alchemy"@ {
        Some(400000)
    } else if name == "y22_mid"@ {
        Some(400026)
    } else if name == "y22_neo"@ {
        Some(400027)
    } else if name == "y22_snc"@ {
        Some(400028)
    } else if name == "y23_dmu"@ {
        Some(400030)
    } else if name == "y23_bro"@ {
        Some(400031)
    } else if name == "y23_one"@ {
        Some(400032)
    } else if name == "y24_woe"@ {
        Some(400040)
    } else if name == "y24_lci"@ {
        Some(400041)
    } else if name == "y24_mkm"@ {
        Some(400043)
    } else if name == "mythic"@ {
        Some(500000)
    } else if name == "eld_mythic"@ {
        Some(500015)
    } else if name == "thb_mythic"@ {
        Some(500016)
    } else if name == "iko_mythic"@ {
        Some(500017)
    } else if name == "m21_mythic"@ {
        Some(500018)
    } else if name == "znr_mythic"@ {
        Some(500020)
    } else if name == "khm_mythic"@ {
        Some(500022)
    } else if name == "stx_mythic"@ {
        Some(500023)
    } else if name == "afr_mythic"@ {
        Some(500024)
    } else if name == "mid_mythic"@ {
        Some(500025)
    } else if name == "vow_mythic"@ {
        Some(500026)
    } else if name == "neo_mythic"@ {
        Some(500027)
    } else if name == "snc_mythic"@ {
        Some(500028)
    } else if name == "hbg_mythic"@ {
        Some(500029)
    } else if name == "dmu_mythic"@ {
        Some(500030)
    } else if name == "bro_mythic"@ {
        Some(500031)
    } else if name == "one_mythic"@ {
        Some(500032)
    } else if name == "sir_mythic"@ {
        Some(500033)
    } else if name == "mom_mythic"@ {
        Some(500037)
    } else if name == "ltr_mythic"@ {
        Some(500039)
    } else if name == "woe_mythic"@ {
        Some(500040)
    } else if name == "lci_mythic"@ {
        Some(500041)
    } else if name == "ktk_mythic"@ {
        Some(500042)
    } else if name == "mkm_mythic"@ {
        Some(500043)
    } else if name == "otj_mythic"@ {
        Some(500044)
    } else if name == "y22_snc_draft"@ {
        Some(600028)
    } else if name == "y23_dmu_draft"@ {
        Some(600030)
    } else if name == "y23_bro_draft"@ {
        Some(600031)
    } else if name == "y23_one_draft"@ {
        Some(600032)
    } else if name == "y24_woe_draft"@ {
        Some(600040)
    } else if name == "y24_lci_draft"@ {
        Some(600041)
    } else if name == "y24_mkm_draft"@ {
        Some(600043)
    } else if name == "snc_rebalanced"@ {
        Some(700028)
    } else if name == "goldenbooster_standard"@ {
        Some(900980)
    } else if name == "futuresetplaceholder"@ {
        Some(999999)
    } else {
        None
    }
}

/// The short name of a known collation leads back to that collation.
proof fn lemma_collation_read_back(c: i32)
    requires
        collation_short_name(c) != "unknown"@,
    ensures
        collation_named(collation_short_name(c)) == Some(c),
{
    reveal_strlit("kld");
    reveal_strlit("aer");
    reveal_strlit("akh");
    reveal_strlit("hou");
    reveal_strlit("xln");
    reveal_strlit("rix");
    reveal_strlit("dar");
    reveal_strlit("m19");
    reveal_strlit("grn");
    reveal_strlit("rna");
    reveal_strlit("war");
    reveal_strlit("m20");
    reveal_strlit("eld");
    reveal_strlit("thb");
    reveal_strlit("iko");
    reveal_strlit("m21");
    reveal_strlit("akr");
    reveal_strlit("znr");
    reveal_strlit("klr");
    reveal_strlit("khm");
    reveal_strlit("stx");
    reveal_strlit("afr");
    reveal_strlit("mid");
    reveal_strlit("vow");
    reveal_strlit("neo");
    reveal_strlit("snc");
    reveal_strlit("hbg");
    reveal_strlit("dmu");
    reveal_strlit("bro");
    reveal_strlit("one");
    reveal_strlit("sir");
    reveal_strlit("mom");
    reveal_strlit("mat");
    reveal_strlit("ltr");
    reveal_strlit("woe");
    reveal_strlit("lci");
    reveal_strlit("ktk");
    reveal_strlit("mkm");
    reveal_strlit("otj");
    reveal_strlit("kld_draft");
    reveal_strlit("aer_draft");
    reveal_strlit("akh_draft");
    reveal_strlit("hou_draft");
    reveal_strlit("xln_draft");
    reveal_strlit("rix_draft");
    reveal_strlit("dar_draft");
    reveal_strlit("m19_draft");
    reveal_strlit("grn_draft");
    reveal_strlit("rna_draft");
    reveal_strlit("war_draft");
    reveal_strlit("m20_draft");
    reveal_strlit("eld_draft");
    reveal_strlit("thb_draft");
    reveal_strlit("iko_draft");
    reveal_strlit("m21_draft");
    reveal_strlit("akr_draft");
    reveal_strlit("znr_draft");
    reveal_strlit("klr_draft");
    reveal_strlit("khm_draft");
    reveal_strlit("stx_draft");
    reveal_strlit("afr_draft");
    reveal_strlit("mid_draft");
    reveal_strlit("vow_draft");
    reveal_strlit("neo_draft");
    reveal_strlit("snc_draft");
    reveal_strlit("hbg_draft");
    reveal_strlit("dmu_draft");
    reveal_strlit("bro_draft");
    reveal_strlit("one_draft");
    reveal_strlit("sir_bonus_typal");
    reveal_strlit("sir_bonus_flashback");
    reveal_strlit("sir_bonus_morbid");
    reveal_strlit("sir_bonus_allstar");
    reveal_strlit("mom_draft");
    reveal_strlit("mat_draft");
    reveal_strlit("ltr_draft");
    reveal_strlit("woe_draft");
    reveal_strlit("lci_draft");
    reveal_strlit("ktk_draft");
    reveal_strlit("mkm_draft");
    reveal_strlit("otj_draft");
    reveal_strlit("cube");
    reveal_strlit("tinkererscube");
    reveal_strlit("chromaticcube");
    reveal_strlit("dbl");
    reveal_strlit("mixedup_1");
    reveal_strlit("mixedup_2");
    reveal_strlit("mixedup_3");
    reveal_strlit("creaturecube");
    reveal_strlit("test_draft_1");
    reveal_strlit("test_draft_2");
    reveal_strlit("test_draft_3");
    reveal_strlit("remixdraft_artifact");
    reveal_strlit("alchemy");
    reveal_strlit("y22_mid");
    reveal_strlit("y22_neo");
    reveal_strlit("y22_snc");
    reveal_strlit("y23_dmu");
    reveal_strlit("y23_bro");
    reveal_strlit("y23_one");
    reveal_strlit("y24_woe");
    reveal_strlit("y24_lci");
    reveal_strlit("y24_mkm");
    reveal_strlit("mythic");
    reveal_strlit("eld_mythic");
    reveal_strlit("thb_mythic");
    reveal_strlit("iko_mythic");
    reveal_strlit("m21_mythic");
    reveal_strlit("znr_mythic");
    reveal_strlit("khm_mythic");
    reveal_strlit("stx_mythic");
    reveal_strlit("afr_mythic");
    reveal_strlit("mid_mythic");
    reveal_strlit("vow_mythic");
    reveal_strlit("neo_mythic");
    reveal_strlit("snc_mythic");
    reveal_strlit("hbg_mythic");
    reveal_strlit("dmu_mythic");
    reveal_strlit("bro_mythic");
    reveal_strlit("one_mythic");
    reveal_strlit("sir_mythic");
    reveal_strlit("mom_mythic");
    reveal_strlit("ltr_mythic");
    reveal_strlit("woe_mythic");
    reveal_strlit("lci_mythic");
    reveal_strlit("ktk_mythic");
    reveal_strlit("mkm_mythic");
    reveal_strlit("otj_mythic");
    reveal_strlit("y22_snc_draft");
    reveal_strlit("y23_dmu_draft");
    reveal_strlit("y23_bro_draft");
    reveal_strlit("y23_one_draft");
    reveal_strlit("y24_woe_draft");
    reveal_strlit("y24_lci_draft");
    reveal_strlit("y24_mkm_draft");
    reveal_strlit("snc_rebalanced");
    reveal_strlit("goldenbooster_standard");
    reveal_strlit("futuresetplaceholder");
    assert("kld"@.len() == 3 && "kld"@[0] == 'k' && "kld"@[2] == 'd');
    assert("aer"@.len() == 3 && "aer"@[0] == 'a' && "aer"@[2] == 'r');
    assert("akh"@.len() == 3 && "akh"@[0] == 'a' && "akh"@[2] == 'h');
    assert("hou"@.len() == 3 && "hou"@[0] == 'h' && "hou"@[2] == 'u');
    assert("xln"@.len() == 3 && "xln"@[0] == 'x' && "xln"@[2] == 'n');
    assert("rix"@.len() == 3 && "rix"@[0] == 'r' && "rix"@[2] == 'x');
    assert("dar"@.len() == 3 && "dar"@[0] == 'd' && "dar"@[2] == 'r');
    assert("m19"@.len() == 3 && "m19"@[0] == 'm' && "m19"@[2] == '9');
    assert("grn"@.len() == 3 && "grn"@[0] == 'g' && "grn"@[2] == 'n');
    assert("rna"@.len() == 3 && "rna"@[0] == 'r' && "rna"@[2] == 'a');
    assert("war"@.len() == 3 && "war"@[0] == 'w' && "war"@[2] == 'r');
    assert("m20"@.len() == 3 && "m20"@[0] == 'm' && "m20"@[2] == '0');
    assert("eld"@.len() == 3 && "eld"@[0] == 'e' && "eld"@[2] == 'd');
    assert("thb"@.len() == 3 && "thb"@[0] == 't' && "thb"@[2] == 'b');
    assert("iko"@.len() == 3 && "iko"@[0] == 'i' && "iko"@[2] == 'o');
    assert("m21"@.len() == 3 && "m21"@[0] == 'm' && "m21"@[2] == '1');
    assert("akr"@.len() == 3 && "akr"@[0] == 'a' && "akr"@[2] == 'r');
    assert("znr"@.len() == 3 && "znr"@[0] == 'z' && "znr"@[2] == 'r');
    assert("klr"@.len() == 3 && "klr"@[0] == 'k' && "klr"@[2] == 'r');
    assert("khm"@.len() == 3 && "khm"@[0] == 'k' && "khm"@[2] == 'm');
    assert("stx"@.len() == 3 && "stx"@[0] == 's' && "stx"@[2] == 'x');
    assert("afr"@.len() == 3 && "afr"@[0] == 'a' && "afr"@[2] == 'r');
    assert("mid"@.len() == 3 && "mid"@[0] == 'm' && "mid"@[2] == 'd');
    assert("vow"@.len() == 3 && "vow"@[0] == 'v' && "vow"@[2] == 'w');
    assert("neo"@.len() == 3 && "neo"@[0] == 'n' && "neo"@[2] == 'o');
    assert("snc"@.len() == 3 && "snc"@[0] == 's' && "snc"@[2] == 'c');
    assert("hbg"@.len() == 3 && "hbg"@[0] == 'h' && "hbg"@[2] == 'g');
    assert("dmu"@.len() == 3 && "dmu"@[0] == 'd' && "dmu"@[2] == 'u');
    assert("bro"@.len() == 3 && "bro"@[0] == 'b' && "bro"@[2] == 'o');
    assert("one"@.len() == 3 && "one"@[0] == 'o' && "one"@[2] == 'e');
    assert("sir"@.len() == 3 && "sir"@[0] == 's' && "sir"@[2] == 'r');
    assert("mom"@.len() == 3 && "mom"@[0] == 'm' && "mom"@[2] == 'm');
    assert("mat"@.len() == 3 && "mat"@[0] == 'm' && "mat"@[2] == 't');
    assert("ltr"@.len() == 3 && "ltr"@[0] == 'l' && "ltr"@[2] == 'r');
    assert("woe"@.len() == 3 && "woe"@[0] == 'w' && "woe"@[2] == 'e');
    assert("lci"@.len() == 3 && "lci"@[0] == 'l' && "lci"@[2] == 'i');
    assert("ktk"@.len() == 3 && "ktk"@[0] == 'k' && "ktk"@[2] == 'k');
    assert("mkm"@.len() == 3 && "mkm"@[0] == 'm' && "mkm"@[2] == 'm');
    assert("otj"@.len() == 3 && "otj"@[0] == 'o' && "otj"@[2] == 'j');
    assert("kld_draft"@.len() == 9 && "kld_draft"@[0] == 'k' && "kld_draft"@[8] == 't');
    assert("aer_draft"@.len() == 9 && "aer_draft"@[0] == 'a' && "aer_draft"@[8] == 't');
    assert("akh_draft"@.len() == 9 && "akh_draft"@[0] == 'a' && "akh_draft"@[8] == 't');
    assert("hou_draft"@.len() == 9 && "hou_draft"@[0] == 'h' && "hou_draft"@[8] == 't');
    assert("xln_draft"@.len() == 9 && "xln_draft"@[0] == 'x' && "xln_draft"@[8] == 't');
    assert("rix_draft"@.len() == 9 && "rix_draft"@[0] == 'r' && "rix_draft"@[8] == 't');
    assert("dar_draft"@.len() == 9 && "dar_draft"@[0] == 'd' && "dar_draft"@[8] == 't');
    assert("m19_draft"@.len() == 9 && "m19_draft"@[0] == 'm' && "m19_draft"@[8] == 't');
    assert("grn_draft"@.len() == 9 && "grn_draft"@[0] == 'g' && "grn_draft"@[8] == 't');
    assert("rna_draft"@.len() == 9 && "rna_draft"@[0] == 'r' && "rna_draft"@[8] == 't');
    assert("war_draft"@.len() == 9 && "war_draft"@[0] == 'w' && "war_draft"@[8] == 't');
    assert("m20_draft"@.len() == 9 && "m20_draft"@[0] == 'm' && "m20_draft"@[8] == 't');
    assert("eld_draft"@.len() == 9 && "eld_draft"@[0] == 'e' && "eld_draft"@[8] == 't');
    assert("thb_draft"@.len() == 9 && "thb_draft"@[0] == 't' && "thb_draft"@[8] == 't');
    assert("iko_draft"@.len() == 9 && "iko_draft"@[0] == 'i' && "iko_draft"@[8] == 't');
    assert("m21_draft"@.len() == 9 && "m21_draft"@[0] == 'm' && "m21_draft"@[8] == 't');
    assert("akr_draft"@.len() == 9 && "akr_draft"@[0] == 'a' && "akr_draft"@[8] == 't');
    assert("znr_draft"@.len() == 9 && "znr_draft"@[0] == 'z' && "znr_draft"@[8] == 't');
    assert("klr_draft"@.len() == 9 && "klr_draft"@[0] == 'k' && "klr_draft"@[8] == 't');
    assert("khm_draft"@.len() == 9 && "khm_draft"@[0] == 'k' && "khm_draft"@[8] == 't');
    assert("stx_draft"@.len() == 9 && "stx_draft"@[0] == 's' && "stx_draft"@[8] == 't');
    assert("afr_draft"@.len() == 9 && "afr_draft"@[0] == 'a' && "afr_draft"@[8] == 't');
    assert("mid_draft"@.len() == 9 && "mid_draft"@[0] == 'm' && "mid_draft"@[8] == 't');
    assert("vow_draft"@.len() == 9 && "vow_draft"@[0] == 'v' && "vow_draft"@[8] == 't');
    assert("neo_draft"@.len() == 9 && "neo_draft"@[0] == 'n' && "neo_draft"@[8] == 't');
    assert("snc_draft"@.len() == 9 && "snc_draft"@[0] == 's' && "snc_draft"@[8] == 't');
    assert("hbg_draft"@.len() == 9 && "hbg_draft"@[0] == 'h' && "hbg_draft"@[8] == 't');
    assert("dmu_draft"@.len() == 9 && "dmu_draft"@[0] == 'd' && "dmu_draft"@[8] == 't');
    assert("bro_draft"@.len() == 9 && "bro_draft"@[0] == 'b' && "bro_draft"@[8] == 't');
    assert("one_draft"@.len() == 9 && "one_draft"@[0] == 'o' && "one_draft"@[8] == 't');
    assert("sir_bonus_typal"@.len() == 15 && "sir_bonus_typal"@[0] == 's' && "sir_bonus_typal"@[14] == 'l');
    assert("sir_bonus_flashback"@.len() == 19 && "sir_bonus_flashback"@[0] == 's' && "sir_bonus_flashback"@[18] == 'k');
    assert("sir_bonus_morbid"@.len() == 16 && "sir_bonus_morbid"@[0] == 's' && "sir_bonus_morbid"@[15] == 'd');
    assert("sir_bonus_allstar"@.len() == 17 && "sir_bonus_allstar"@[0] == 's' && "sir_bonus_allstar"@[16] == 'r');
    assert("mom_draft"@.len() == 9 && "mom_draft"@[0] == 'm' && "mom_draft"@[8] == 't');
    assert("mat_draft"@.len() == 9 && "mat_draft"@[0] == 'm' && "mat_draft"@[8] == 't');
    assert("ltr_draft"@.len() == 9 && "ltr_draft"@[0] == 'l' && "ltr_draft"@[8] == 't');
    assert("woe_draft"@.len() == 9 && "woe_draft"@[0] == 'w' && "woe_draft"@[8] == 't');
    assert("lci_draft"@.len() == 9 && "lci_draft"@[0] == 'l' && "lci_draft"@[8] == 't');
    assert("ktk_draft"@.len() == 9 && "ktk_draft"@[0] == 'k' && "ktk_draft"@[8] == 't');
    assert("mkm_draft"@.len() == 9 && "mkm_draft"@[0] == 'm' && "mkm_draft"@[8] == 't');
    assert("otj_draft"@.len() == 9 && "otj_draft"@[0] == 'o' && "otj_draft"@[8] == 't');
    assert("cube"@.len() == 4 && "cube"@[0] == 'c' && "cube"@[3] == 'e');
    assert("tinkererscube"@.len() == 13 && "tinkererscube"@[0] == 't' && "tinkererscube"@[12] == 'e');
    assert("chromaticcube"@.len() == 13 && "chromaticcube"@[0] == 'c' && "chromaticcube"@[12] == 'e');
    assert("dbl"@.len() == 3 && "dbl"@[0] == 'd' && "dbl"@[2] == 'l');
    assert("mixedup_1"@.len() == 9 && "mixedup_1"@[0] == 'm' && "mixedup_1"@[8] == '1');
    assert("mixedup_2"@.len() == 9 && "mixedup_2"@[0] == 'm' && "mixedup_2"@[8] == '2');
    assert("mixedup_3"@.len() == 9 && "mixedup_3"@[0] == 'm' && "mixedup_3"@[8] == '3');
    assert("creaturecube"@.len() == 12 && "creaturecube"@[0] == 'c' && "creaturecube"@[11] == 'e');
    assert("test_draft_1"@.len() == 12 && "test_draft_1"@[0] == 't' && "test_draft_1"@[11] == '1');
    assert("test_draft_2"@.len() == 12 && "test_draft_2"@[0] == 't' && "test_draft_2"@[11] == '2');
    assert("test_draft_3"@.len() == 12 && "test_draft_3"@[0] == 't' && "test_draft_3"@[11] == '3');
    assert("remixdraft_artifact"@.len() == 19 && "remixdraft_artifact"@[0] == 'r' && "remixdraft_artifact"@[18] == 't');
    assert("alchemy"@.len() == 7 && "alchemy"@[0] == 'a' && "alchemy"@[6] == 'y');
    assert("y22_mid"@.len() == 7 && "y22_mid"@[0] == 'y' && "y22_mid"@[6] == 'd');
    assert("y22_neo"@.len() == 7 && "y22_neo"@[0] == 'y' && "y22_neo"@[6] == 'o');
    assert("y22_snc"@.len() == 7 && "y22_snc"@[0] == 'y' && "y22_snc"@[6] == 'c');
    assert("y23_dmu"@.len() == 7 && "y23_dmu"@[0] == 'y' && "y23_dmu"@[6] == 'u');
    assert("y23_bro"@.len() == 7 && "y23_bro"@[0] == 'y' && "y23_bro"@[6] == 'o');
    assert("y23_one"@.len() == 7 && "y23_one"@[0] == 'y' && "y23_one"@[6] == 'e');
    assert("y24_woe"@.len() == 7 && "y24_woe"@[0] == 'y' && "y24_woe"@[6] == 'e');
    assert("y24_lci"@.len() == 7 && "y24_lci"@[0] == 'y' && "y24_lci"@[6] == 'i');
    assert("y24_mkm"@.len() == 7 && "y24_mkm"@[0] == 'y' && "y24_mkm"@[6] == 'm');
    assert("mythic"@.len() == 6 && "mythic"@[0] == 'm' && "mythic"@[5] == 'c');
    assert("eld_mythic"@.len() == 10 && "eld_mythic"@[0] == 'e' && "eld_mythic"@[9] == 'c');
    assert("thb_mythic"@.len() == 10 && "thb_mythic"@[0] == 't' && "thb_mythic"@[9] == 'c');
    assert("iko_mythic"@.len() == 10 && "iko_mythic"@[0] == 'i' && "iko_mythic"@[9] == 'c');
    assert("m21_mythic"@.len() == 10 && "m21_mythic"@[0] == 'm' && "m21_mythic"@[9] == 'c');
    assert("znr_mythic"@.len() == 10 && "znr_mythic"@[0] == 'z' && "znr_mythic"@[9] == 'c');
    assert("khm_mythic"@.len() == 10 && "khm_mythic"@[0] == 'k' && "khm_mythic"@[9] == 'c');
    assert("stx_mythic"@.len() == 10 && "stx_mythic"@[0] == 's' && "stx_mythic"@[9] == 'c');
    assert("afr_mythic"@.len() == 10 && "afr_mythic"@[0] == 'a' && "afr_mythic"@[9] == 'c');
    assert("mid_mythic"@.len() == 10 && "mid_mythic"@[0] == 'm' && "mid_mythic"@[9] == 'c');
    assert("vow_mythic"@.len() == 10 && "vow_mythic"@[0] == 'v' && "vow_mythic"@[9] == 'c');
    assert("neo_mythic"@.len() == 10 && "neo_mythic"@[0] == 'n' && "neo_mythic"@[9] == 'c');
    assert("snc_mythic"@.len() == 10 && "snc_mythic"@[0] == 's' && "snc_mythic"@[9] == 'c');
    assert("hbg_mythic"@.len() == 10 && "hbg_mythic"@[0] == 'h' && "hbg_mythic"@[9] == 'c');
    assert("dmu_mythic"@.len() == 10 && "dmu_mythic"@[0] == 'd' && "dmu_mythic"@[9] == 'c');
    assert("bro_mythic"@.len() == 10 && "bro_mythic"@[0] == 'b' && "bro_mythic"@[9] == 'c');
    assert("one_mythic"@.len() == 10 && "one_mythic"@[0] == 'o' && "one_mythic"@[9] == 'c');
    assert("sir_mythic"@.len() == 10 && "sir_mythic"@[0] == 's' && "sir_mythic"@[9] == 'c');
    assert("mom_mythic"@.len() == 10 && "mom_mythic"@[0] == 'm' && "mom_mythic"@[9] == 'c');
    assert("ltr_mythic"@.len() == 10 && "ltr_mythic"@[0] == 'l' && "ltr_mythic"@[9] == 'c');
    assert("woe_mythic"@.len() == 10 && "woe_mythic"@[0] == 'w' && "woe_mythic"@[9] == 'c');
    assert("lci_mythic"@.len() == 10 && "lci_mythic"@[0] == 'l' && "lci_mythic"@[9] == 'c');
    assert("ktk_mythic"@.len() == 10 && "ktk_mythic"@[0] == 'k' && "ktk_mythic"@[9] == 'c');
    assert("mkm_mythic"@.len() == 10 && "mkm_mythic"@[0] == 'm' && "mkm_mythic"@[9] == 'c');
    assert("otj_mythic"@.len() == 10 && "otj_mythic"@[0] == 'o' && "otj_mythic"@[9] == 'c');
    assert("y22_snc_draft"@.len() == 13 && "y22_snc_draft"@[0] == 'y' && "y22_snc_draft"@[12] == 't');
    assert("y23_dmu_draft"@.len() == 13 && "y23_dmu_draft"@[0] == 'y' && "y23_dmu_draft"@[12] == 't');
    assert("y23_bro_draft"@.len() == 13 && "y23_bro_draft"@[0] == 'y' && "y23_bro_draft"@[12] == 't');
    assert("y23_one_draft"@.len() == 13 && "y23_one_draft"@[0] == 'y' && "y23_one_draft"@[12] == 't');
    assert("y24_woe_draft"@.len() == 13 && "y24_woe_draft"@[0] == 'y' && "y24_woe_draft"@[12] == 't');
    assert("y24_lci_draft"@.len() == 13 && "y24_lci_draft"@[0] == 'y' && "y24_lci_draft"@[12] == 't');
    assert("y24_mkm_draft"@.len() == 13 && "y24_mkm_draft"@[0] == 'y' && "y24_mkm_draft"@[12] == 't');
    assert("snc_rebalanced"@.len() == 14 && "snc_rebalanced"@[0] == 's' && "snc_rebalanced"@[13] == 'd');
    assert("goldenbooster_standard"@.len() == 22 && "goldenbooster_standard"@[0] == 'g' && "goldenbooster_standard"@[21] == 'd');
    assert("futuresetplaceholder"@.len() == 20 && "futuresetplaceholder"@[0] == 'f' && "futuresetplaceholder"@[19] == 'r');
    assert("akr"@[1] != "aer"@[1]);
    assert("afr"@[1] != "aer"@[1]);
    assert("afr"@[1] != "akr"@[1]);
    assert("mkm"@[1] != "mom"@[1]);
    assert("akh_draft"@[1] != "aer_draft"@[1]);
    assert("rna_draft"@[1] != "rix_draft"@[1]);
    assert("m20_draft"@[1] != "m19_draft"@[1]);
    assert("m21_draft"@[1] != "m19_draft"@[1]);
    assert("m21_draft"@[2] != "m20_draft"@[2]);
    assert("akr_draft"@[1] != "aer_draft"@[1]);
    assert("akr_draft"@[2] != "akh_draft"@[2]);
    assert("klr_draft"@[2] != "kld_draft"@[2]);
    assert("khm_draft"@[1] != "kld_draft"@[1]);
    assert("khm_draft"@[1] != "klr_draft"@[1]);
    assert("afr_draft"@[1] != "aer_draft"@[1]);
    assert("afr_draft"@[1] != "akh_draft"@[1]);
    assert("afr_draft"@[1] != "akr_draft"@[1]);
    assert("mid_draft"@[1] != "m19_draft"@[1]);
    assert("mid_draft"@[1] != "m20_draft"@[1]);
    assert("mid_draft"@[1] != "m21_draft"@[1]);
    assert("snc_draft"@[1] != "stx_draft"@[1]);
    assert("hbg_draft"@[1] != "hou_draft"@[1]);
    assert("dmu_draft"@[1] != "dar_draft"@[1]);
    assert("mom_draft"@[1] != "m19_draft"@[1]);
    assert("mom_draft"@[1] != "m20_draft"@[1]);
    assert("mom_draft"@[1] != "m21_draft"@[1]);
    assert("mom_draft"@[1] != "mid_draft"@[1]);
    assert("mat_draft"@[1] != "m19_draft"@[1]);
    assert("mat_draft"@[1] != "m20_draft"@[1]);
    assert("mat_draft"@[1] != "m21_draft"@[1]);
    assert("mat_draft"@[1] != "mid_draft"@[1]);
    assert("mat_draft"@[1] != "mom_draft"@[1]);
    assert("woe_draft"@[1] != "war_draft"@[1]);
    assert("lci_draft"@[1] != "ltr_draft"@[1]);
    assert("ktk_draft"@[1] != "kld_draft"@[1]);
    assert("ktk_draft"@[1] != "klr_draft"@[1]);
    assert("ktk_draft"@[1] != "khm_draft"@[1]);
    assert("mkm_draft"@[1] != "m19_draft"@[1]);
    assert("mkm_draft"@[1] != "m20_draft"@[1]);
    assert("mkm_draft"@[1] != "m21_draft"@[1]);
    assert("mkm_draft"@[1] != "mid_draft"@[1]);
    assert("mkm_draft"@[1] != "mom_draft"@[1]);
    assert("mkm_draft"@[1] != "mat_draft"@[1]);
    assert("otj_draft"@[1] != "one_draft"@[1]);
    assert("y23_bro"@[2] != "y22_neo"@[2]);
    assert("y24_woe"@[2] != "y23_one"@[2]);
    assert("mid_mythic"@[1] != "m21_mythic"@[1]);
    assert("snc_mythic"@[1] != "stx_mythic"@[1]);
    assert("sir_mythic"@[1] != "stx_mythic"@[1]);
    assert("sir_mythic"@[1] != "snc_mythic"@[1]);
    assert("mom_mythic"@[1] != "m21_mythic"@[1]);
    assert("mom_mythic"@[1] != "mid_mythic"@[1]);
    assert("lci_mythic"@[1] != "ltr_mythic"@[1]);
    assert("ktk_mythic"@[1] != "khm_mythic"@[1]);
    assert("mkm_mythic"@[1] != "m21_mythic"@[1]);
    assert("mkm_mythic"@[1] != "mid_mythic"@[1]);
    assert("mkm_mythic"@[1] != "mom_mythic"@[1]);
    assert("otj_mythic"@[1] != "one_mythic"@[1]);
    assert("y23_dmu_draft"@[2] != "y22_snc_draft"@[2]);
    assert("y23_bro_draft"@[2] != "y22_snc_draft"@[2]);
    assert("y23_bro_draft"@[4] != "y23_dmu_draft"@[4]);
    assert("y23_one_draft"@[2] != "y22_snc_draft"@[2]);
    assert("y23_one_draft"@[4] != "y23_dmu_draft"@[4]);
    assert("y23_one_draft"@[4] != "y23_bro_draft"@[4]);
    assert("y24_woe_draft"@[2] != "y22_snc_draft"@[2]);
    assert("y24_woe_draft"@[2] != "y23_dmu_draft"@[2]);
    assert("y24_woe_draft"@[2] != "y23_bro_draft"@[2]);
    assert("y24_woe_draft"@[2] != "y23_one_draft"@[2]);
    assert("y24_lci_draft"@[2] != "y22_snc_draft"@[2]);
    assert("y24_lci_draft"@[2] != "y23_dmu_draft"@[2]);
    assert("y24_lci_draft"@[2] != "y23_bro_draft"@[2]);
    assert("y24_lci_draft"@[2] != "y23_one_draft"@[2]);
    assert("y24_lci_draft"@[4] != "y24_woe_draft"@[4]);
    assert("y24_mkm_draft"@[2] != "y22_snc_draft"@[2]);
    assert("y24_mkm_draft"@[2] != "y23_dmu_draft"@[2]);
    assert("y24_mkm_draft"@[2] != "y23_bro_draft"@[2]);
    assert("y24_mkm_draft"@[2] != "y23_one_draft"@[2]);
    assert("y24_mkm_draft"@[4] != "y24_woe_draft"@[4]);
    assert("y24_mkm_draft"@[4] != "y24_lci_draft"@[4]);
}


/// The short name of a booster collation.
pub fn collation_name(collation_id: i32) -> (r: &'static str)
    ensures
        r@ == collation_short_name(collation_id),
{
    match collation_id {
            62242 => "kld",
            62979 => "aer",
            100003 => "akh",
            100004 => "hou",
            100005 => "xln",
            100006 => "rix",
            100007 => "dar",
            100008 => "m19",
            100009 => "grn",
            100010 => "rna",
            100013 => "war",
            100014 => "m20",
            100015 => "eld",
            100016 => "thb",
            100017 => "iko",
            100018 => "m21",
            100019 => "akr",
            100020 => "znr",
            100021 => "klr",
            100022 => "khm",
            100023 => "stx",
            100024 => "afr",
            100025 => "mid",
            100026 => "vow",
            100027 => "neo",
            100028 => "snc",
            100029 => "hbg",
            100030 => "dmu",
            100031 => "bro",
            100032 => "one",
            100033 => "sir",
            100037 => "mom",
            100038 => "mat",
            100039 => "ltr",
            100040 => "woe",
            100041 => "lci",
            100042 => "ktk",
            100043 => "mkm",
            100044 => "otj",
            200001 => "kld_draft",
            200002 => "aer_draft",
            200003 => "akh_draft",
            200004 => "hou_draft",
            200005 => "xln_draft",
            200006 => "rix_draft",
            200007 => "dar_draft",
            200008 => "m19_draft",
            200009 => "grn_draft",
            200010 => "rna_draft",
            200013 => "war_draft",
            200014 => "m20_draft",
            200015 => "eld_draft",
            200016 => "thb_draft",
            200017 => "iko_draft",
            200018 => "m21_draft",
            200019 => "akr_draft",
            200020 => "znr_draft",
            200021 => "klr_draft",
            200022 => "khm_draft",
            200023 => "stx_draft",
            200024 => "afr_draft",
            200025 => "mid_draft",
            200026 => "vow_draft",
            200027 => "neo_draft",
            200028 => "snc_draft",
            200029 => "hbg_draft",
            200030 => "dmu_draft",
            200031 => "bro_draft",
            200032 => "one_draft",
            200033 => "sir_bonus_typal",
            200034 => "sir_bonus_flashback",
            200035 => "sir_bonus_morbid",
            200036 => "sir_bonus_allstar",
            200037 => "mom_draft",
            200038 => "mat_draft",
            200039 => "ltr_draft",
            200040 => "woe_draft",
            200041 => "lci_draft",
            200042 => "ktk_draft",
            200043 => "mkm_draft",
            200044 => "otj_draft",
            300000 => "cube",
            300001 => "tinkererscube",
            300002 => "chromaticcube",
            300003 => "dbl",
            300004 => "mixedup_1",
            300005 => "mixedup_2",
            300006 => "mixedup_3",
            300007 => "creaturecube",
            300010 => "test_draft_1",
            300011 => "test_draft_2",
            300012 => "test_draft_3",
            300020 => "remixdraft_artifact",
            400000 => "alchemy",
            400026 => "y22_mid",
            400027 => "y22_neo",
            400028 => "y22_snc",
            400030 => "y23_dmu",
            400031 => "y23_bro",
            400032 => "y23_one",
            400040 => "y24_woe",
            400041 => "y24_lci",
            400043 => "y24_mkm",
            500000 => "mythic",
            500015 => "eld_mythic",
            500016 => "thb_mythic",
            500017 => "iko_mythic",
            500018 => "m21_mythic",
            500020 => "znr_mythic",
            500022 => "khm_mythic",
            500023 => "stx_mythic",
            500024 => "afr_mythic",
            500025 => "mid_mythic",
            500026 => "vow_mythic",
            500027 => "neo_mythic",
            500028 => "snc_mythic",
            500029 => "hbg_mythic",
            500030 => "dmu_mythic",
            500031 => "bro_mythic",
            500032 => "one_mythic",
            500033 => "sir_mythic",
            500037 => "mom_mythic",
            500039 => "ltr_mythic",
            500040 => "woe_mythic",
            500041 => "lci_mythic",
            500042 => "ktk_mythic",
            500043 => "mkm_mythic",
            500044 => "otj_mythic",
            600028 => "y22_snc_draft",
            600030 => "y23_dmu_draft",
            600031 => "y23_bro_draft",
            600032 => "y23_one_draft",
            600040 => "y24_woe_draft",
            600041 => "y24_lci_draft",
            600043 => "y24_mkm_draft",
            700028 => "snc_rebalanced",
            900980 => "goldenbooster_standard",
            999999 => "futuresetplaceholder",
        _ => "unknown",
    }
}

} // verus!
