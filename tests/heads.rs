use build_a_cog::{suita_heads, suitb_heads, suitc_heads};

#[test]
fn suit_a_head_nodes() {
    let expected = vec![
        "twoface", "yesman", "pennypincher", "numbercruncher", "legaleagle",
        "headhunter", "bigwig", "bigcheese", "backstabber",
    ];
    assert_eq!(suita_heads(), expected);
}

#[test]
fn suit_b_head_nodes() {
    let expected = vec![
        "telemarketer", "pencilpusher", "movershaker", "loanshark", "beancounter",
        "ambulancechaser",
    ];
    assert_eq!(suitb_heads(), expected);
}

#[test]
fn suit_c_head_nodes() {
    let expected = vec![
        "tightwad", "moneybags", "micromanager", "gladhander", "flunky", "coldcaller",
    ];
    assert_eq!(suitc_heads(), expected);
}

#[test]
fn head_lists_are_the_same_on_every_call() {
    assert_eq!(suita_heads(), suita_heads());
    assert_eq!(suitb_heads(), suitb_heads());
    assert_eq!(suitc_heads(), suitc_heads());
}
