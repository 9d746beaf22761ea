use vstd::prelude::*;

verus! {

/// The text of each name in `v`, in order.
pub open spec fn names_of(v: Seq<String>) -> Seq<Seq<char>> {
    v.map_values(|s: String| s@)
}

/// The head nodes held in the suit-A head bundle, in declared order.
pub open spec fn suita_head_names() -> Seq<Seq<char>> {
    seq![
        "twoface"@,
        "yesman"@,
        "pennypincher"@,
        "numbercruncher"@,
        "legaleagle"@,
        "headhunter"@,
        "bigwig"@,
        "bigcheese"@,
        "backstabber"@,
    ]
}

/// Returns the names of the nodes in suitA-heads.bam.
pub fn suita_heads() -> (r: Vec<String>)
    ensures
        r@.len() == suita_head_names().len(),
        names_of(r@) == suita_head_names(),
{
    let r = vec![
        String::from_str("twoface"), // also used for the double talker and the mingler
        String::from_str("yesman"), // also used for the robber baron and mr. hollywood
        String::from_str("pennypincher"),
        String::from_str("numbercruncher"), // also used for the name dropper
        String::from_str("legaleagle"),
        String::from_str("headhunter"),
        String::from_str("bigwig"),
        String::from_str("bigcheese"),
        String::from_str("backstabber"),
    ];
    assert(names_of(r@) =~= suita_head_names());
    r
}

/// The head nodes held in the suit-B head bundle, in declared order.
pub open spec fn suitb_head_names() -> Seq<Seq<char>> {
    seq![
        "telemarketer"@,
        "pencilpusher"@,
        "movershaker"@,
        "loanshark"@,
        "beancounter"@,
        "ambulancechaser"@,
    ]
}

/// Returns the names of the nodes in suitB-heads.bam.
pub fn suitb_heads() -> (r: Vec<String>)
    ensures
        r@.len() == suitb_head_names().len(),
        names_of(r@) == suitb_head_names(),
{
    let r = vec![
        String::from_str("telemarketer"), // also used for the spin doctor
        String::from_str("pencilpusher"),
        String::from_str("movershaker"), // also used for the bloodsucker
        String::from_str("loanshark"),
        String::from_str("beancounter"), // also used for the downsizer
        String::from_str("ambulancechaser"),
    ];
    assert(names_of(r@) =~= suitb_head_names());
    r
}

/// The head nodes held in the suit-C head bundle, in declared order.
pub open spec fn suitc_head_names() -> Seq<Seq<char>> {
    seq![
        "tightwad"@,
        "moneybags"@,
        "micromanager"@,
        "gladhander"@,
        "flunky"@,
        "coldcaller"@,
    ]
}

/// Returns the names of the nodes in suitC-heads.bam.
pub fn suitc_heads() -> (r: Vec<String>)
    ensures
        r@.len() == suitc_head_names().len(),
        names_of(r@) == suitc_head_names(),
{
    let r = vec![
        String::from_str("tightwad"), // also used for the bottom feeder
        String::from_str("moneybags"),
        String::from_str("micromanager"),
        String::from_str("gladhander"),
        String::from_str("flunky"), // also used for the corporate raider, without the glasses
        String::from_str("coldcaller"), // the short change by default; recolour it for the cold caller
    ];
    assert(names_of(r@) =~= suitc_head_names());
    r
}

} // verus!
