use vstd::prelude::*;

verus! {

/// The two banners that gameplay puts on screen.
#[derive(Clone, Copy, Debug, PartialEq, Eq, Structural)]
pub enum BannerKind {
    Win,
    Fall,
}

/// A banner on screen, under the identity of the entity that shows it.
#[derive(Clone, Copy, Debug, PartialEq, Eq, Structural)]
pub struct Banner {
    pub id: u64,
    pub kind: BannerKind,
}

/// The banners on screen, in the order they appeared.
#[derive(Debug)]
pub struct Overlay {
    pub banners: Vec<Banner>,
}

/// The banners of `bs` that are not fall banners, in order.
pub open spec fn without_falls(bs: Seq<Banner>) -> Seq<Banner>
    decreases bs.len(),
{
    if bs.len() == 0 {
        Seq::empty()
    } else if bs.last().kind == BannerKind::Fall {
        without_falls(bs.drop_last())
    } else {
        without_falls(bs.drop_last()).push(bs.last())
    }
}

/// The identities of the fall banners of `bs`, in order.
pub open spec fn fall_ids(bs: Seq<Banner>) -> Seq<u64>
    decreases bs.len(),
{
    if bs.len() == 0 {
        Seq::empty()
    } else if bs.last().kind == BannerKind::Fall {
        fall_ids(bs.drop_last()).push(bs.last().id)
    } else {
        fall_ids(bs.drop_last())
    }
}

pub open spec fn shows_fall(bs: Seq<Banner>) -> bool {
    exists|i: int| 0 <= i < bs.len() && bs[i].kind == BannerKind::Fall
}

/// No fall banner is left once the fall banners are taken out.
pub proof fn lemma_no_fall_left(bs: Seq<Banner>)
    ensures
        !shows_fall(without_falls(bs)),
    decreases bs.len(),
{
    if bs.len() > 0 {
        lemma_no_fall_left(bs.drop_last());
        let rest = without_falls(bs.drop_last());
        if bs.last().kind != BannerKind::Fall {
            assert forall|i: int| 0 <= i < rest.push(bs.last()).len() implies rest.push(
                bs.last(),
            )[i].kind != BannerKind::Fall by {
                if i < rest.len() {
                    assert(rest.push(bs.last())[i] == rest[i]);
                }
            }
        }
    }
}

impl Overlay {
    pub fn new() -> (r: Overlay)
        ensures
            r.banners@.len() == 0,
    {
        Overlay { banners: Vec::new() }
    }

    /// Records a banner that was put on screen.
    pub fn show(&mut self, id: u64, kind: BannerKind)
        ensures
            final(self).banners@ == old(self).banners@.push(Banner { id, kind }),
    {
        self.banners.push(Banner { id, kind });
    }

    /// Takes every fall banner out and returns their identities, in order;
    /// other banners stay.
    pub fn remove_falls(&mut self) -> (ids: Vec<u64>)
        ensures
            final(self).banners@ == without_falls(old(self).banners@),
            ids@ == fall_ids(old(self).banners@),
            !shows_fall(final(self).banners@),
    {
        let mut kept: Vec<Banner> = Vec::new();
        let mut ids: Vec<u64> = Vec::new();
        let mut i: usize = 0;
        while i < self.banners.len()
            invariant
                i <= self.banners@.len(),
                kept@ == without_falls(self.banners@.subrange(0, i as int)),
                ids@ == fall_ids(self.banners@.subrange(0, i as int)),
            decreases self.banners@.len() - i,
        {
            let b = self.banners[i];
            proof {
                assert(self.banners@.subrange(0, i + 1).drop_last() == self.banners@.subrange(
                    0,
                    i as int,
                ));
            }
            if b.kind == BannerKind::Fall {
                ids.push(b.id);
            } else {
                kept.push(b);
            }
            i = i + 1;
        }
        proof {
            assert(self.banners@.subrange(0, self.banners@.len() as int) == self.banners@);
            lemma_no_fall_left(self.banners@);
        }
        self.banners = kept;
        ids
    }
}

} // verus!
