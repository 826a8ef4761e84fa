//! Resource valuation: which held resource is worth selling, and which one
//! to gather next.
use vstd::prelude::*;
use crate::world::{Backpack, Content};

verus! {

/// The price a market pays for one unit of a sellable resource.
pub open spec fn unit_price(c: Content) -> nat {
    match c {
        Content::Rock => 1,
        Content::Tree => 2,
        Content::Fish => 3,
        Content::Coin => 3,
        _ => 0,
    }
}

/// What the held quantity of `c` would fetch at a market.
pub open spec fn sale_value(bp: Backpack, c: Content) -> nat {
    (bp.count_spec(c) as nat) * unit_price(c)
}

/// The sellable resource (rock, tree or fish, in that order on ties) whose
/// held quantity is worth most, or `Empty` when none is worth anything.
pub open spec fn content_to_sell(bp: Backpack) -> Content {
    let r = sale_value(bp, Content::Rock);
    let t = sale_value(bp, Content::Tree);
    let f = sale_value(bp, Content::Fish);
    let (c1, v1) = if r > 0 { (Content::Rock, r) } else { (Content::Empty, 0nat) };
    let (c2, v2) = if t > v1 { (Content::Tree, t) } else { (c1, v1) };
    if f > v2 { Content::Fish } else { c2 }
}

/// Returns the best resource to sell, by held quantity times price.
pub fn get_content_to_sell(bp: &Backpack) -> (r: Content)
    ensures
        r == content_to_sell(*bp),
        r != Content::Empty ==> sale_value(*bp, r) > 0,
        forall|c: Content|
            (c == Content::Rock || c == Content::Tree || c == Content::Fish) ==> #[trigger] sale_value(*bp, c)
                <= if r == Content::Empty { 0 } else { sale_value(*bp, r) },
{
    let r = bp.rock as u128;
    let t = (bp.tree as u128) * 2;
    let f = (bp.fish as u128) * 3;
    let mut best = Content::Empty;
    let mut max: u128 = 0;
    if r > max {
        best = Content::Rock;
        max = r;
    }
    if t > max {
        best = Content::Tree;
        max = t;
    }
    if f > max {
        best = Content::Fish;
    }
    best
}

pub open spec fn max3(a: nat, b: nat, c: nat) -> nat {
    if a >= b && a >= c {
        a
    } else if b >= c {
        b
    } else {
        c
    }
}

/// The gatherable resources (rock, tree, fish, in that order) of which the
/// backpack holds the most.
pub open spec fn gather_candidates(bp: Backpack) -> Seq<Content> {
    let m = max3(bp.rock as nat, bp.tree as nat, bp.fish as nat);
    let s0: Seq<Content> = if bp.rock == m { seq![Content::Rock] } else { seq![] };
    let s1 = if bp.tree == m { s0.push(Content::Tree) } else { s0 };
    if bp.fish == m { s1.push(Content::Fish) } else { s1 }
}

/// The resource to gather for the random draw `roll`, uniform among the
/// most held ones.
pub open spec fn gather_choice(bp: Backpack, roll: usize) -> Content {
    let s = gather_candidates(bp);
    s[(roll as nat % s.len()) as int]
}

/// Picks the resource to gather: among those held in the largest quantity,
/// the one that the draw `roll` selects.
pub fn content_to_gather(bp: &Backpack, roll: usize) -> (r: Content)
    ensures
        r == gather_choice(*bp, roll),
        gather_candidates(*bp).len() >= 1,
        gather_candidates(*bp).contains(r),
{
    let m = if bp.rock >= bp.tree && bp.rock >= bp.fish {
        bp.rock
    } else if bp.tree >= bp.fish {
        bp.tree
    } else {
        bp.fish
    };
    let mut cands: Vec<Content> = Vec::new();
    if bp.rock == m {
        cands.push(Content::Rock);
    }
    if bp.tree == m {
        cands.push(Content::Tree);
    }
    if bp.fish == m {
        cands.push(Content::Fish);
    }
    assert(cands@ =~= gather_candidates(*bp));
    let i = roll % cands.len();
    cands[i]
}

/// Picks the resource to gather, breaking ties among the most held ones
/// uniformly at random.
pub fn random_content_to_gather(bp: &Backpack) -> (r: Content)
    ensures
        gather_candidates(*bp).contains(r),
        exists|roll: usize| r == #[trigger] gather_choice(*bp, roll),
{
    let roll = rand::random::<usize>();
    content_to_gather(bp, roll)
}

} // verus!
