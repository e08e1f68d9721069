//! A shirt giveaway and a shoe filter.
use vstd::prelude::*;

verus! {

/// The colours of the shirts in stock.
#[derive(Debug, PartialEq, Eq, Copy, Clone, Structural)]
pub enum ShirtColor {
    Red,
    Blue,
}

/// A stock of shirts.
pub struct Inventory {
    pub shirts: Vec<ShirtColor>,
}

/// How many of `shirts` have colour `c`.
pub open spec fn count_color(shirts: Seq<ShirtColor>, c: ShirtColor) -> nat
    decreases shirts.len(),
{
    if shirts.len() == 0 {
        0
    } else {
        count_color(shirts.drop_last(), c) + (if shirts.last() == c { 1nat } else { 0nat })
    }
}

/// The colour in the larger supply; blue on a tie.
pub open spec fn most_stocked_of(shirts: Seq<ShirtColor>) -> ShirtColor {
    if count_color(shirts, ShirtColor::Red) > count_color(shirts, ShirtColor::Blue) {
        ShirtColor::Red
    } else {
        ShirtColor::Blue
    }
}

proof fn lemma_count_le_len(shirts: Seq<ShirtColor>, c: ShirtColor)
    ensures
        count_color(shirts, c) <= shirts.len(),
    decreases shirts.len(),
{
    if shirts.len() > 0 {
        lemma_count_le_len(shirts.drop_last(), c);
    }
}

impl Inventory {
    /// The preferred colour if there is one, else the most stocked colour.
    pub fn giveaway(&self, user_preference: Option<ShirtColor>) -> (r: ShirtColor)
        ensures
            r == (match user_preference {
                Some(c) => c,
                None => most_stocked_of(self.shirts@),
            }),
    {
        match user_preference {
            Some(c) => c,
            None => self.most_stocked(),
        }
    }

    /// The colour with more shirts in stock; blue when the counts are equal.
    pub fn most_stocked(&self) -> (r: ShirtColor)
        ensures
            r == most_stocked_of(self.shirts@),
    {
        let mut num_red: usize = 0;
        let mut num_blue: usize = 0;
        let mut i: usize = 0;
        while i < self.shirts.len()
            invariant
                i <= self.shirts.len(),
                num_red == count_color(self.shirts@.subrange(0, i as int), ShirtColor::Red),
                num_blue == count_color(self.shirts@.subrange(0, i as int), ShirtColor::Blue),
            decreases self.shirts.len() - i,
        {
            let ghost next = self.shirts@.subrange(0, i + 1);
            assert(next.drop_last() =~= self.shirts@.subrange(0, i as int));
            proof {
                lemma_count_le_len(next, ShirtColor::Red);
                lemma_count_le_len(next, ShirtColor::Blue);
            }
            match self.shirts[i] {
                ShirtColor::Red => num_red = num_red + 1,
                ShirtColor::Blue => num_blue = num_blue + 1,
            }
            i = i + 1;
        }
        assert(self.shirts@.subrange(0, i as int) =~= self.shirts@);
        if num_red > num_blue {
            ShirtColor::Red
        } else {
            ShirtColor::Blue
        }
    }
}

/// A shoe of some size and style.
#[derive(Debug, PartialEq, Eq)]
pub struct Shoe {
    pub size: u32,
    pub style: String,
}

/// The shoes of the given size, in their original order.
pub fn shoes_in_size(shoes: Vec<Shoe>, shoe_size: u32) -> (r: Vec<Shoe>)
    ensures
        r@ == shoes@.filter(|x: Shoe| x.size == shoe_size),
{
    let ghost all = shoes@;
    let mut r: Vec<Shoe> = Vec::new();
    for s in it: shoes.into_iter()
        invariant
            it.seq() == all,
            r@ == all.subrange(0, it.index() as int).filter(|x: Shoe| x.size == shoe_size),
    {
        let ghost i = it.index();
        let ghost prefix = all.subrange(0, i + 1);
        assert(prefix.drop_last() =~= all.subrange(0, i as int));
        assert(prefix.last() == s);
        let ghost before = r@;
        if s.size == shoe_size {
            r.push(s);
            assert(r@ == before.push(prefix.last()));
        } else {
            assert(r@ == before);
        }
        assert(r@ == prefix.filter(|x: Shoe| x.size == shoe_size)) by {
            reveal(Seq::filter);
        }
    }
    assert(all.subrange(0, all.len() as int) =~= all);
    r
}

} // verus!
