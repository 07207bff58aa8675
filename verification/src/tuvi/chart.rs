//! Tra cứu và an sao vào các cung của lá số Tử Vi.

use vstd::prelude::*;

use crate::canchi::{lemma_branch_at_idx, EarthlyBranch};
use crate::modulo::lemma_mod12_near;
use crate::tuvi::palaces::Palace;
use crate::tuvi::stars::sao::Sao;
use crate::tuvi::truong_sinh::TruongSinhState;
use crate::tuvi::types::{placed_at, same_but_stars, same_frame, TuViChart};

verus! {

/// Trong một lá số đúng khung, cung có Chi `b` nằm ở thứ tự `index_of(b)`, và
/// chỉ ở đó.
pub proof fn lemma_index_of(c: TuViChart, b: EarthlyBranch)
    requires
        c.wf(),
    ensures
        0 <= c.index_of(b) < 12,
        c.palaces@[c.index_of(b)].branch == b,
        forall|j: int| 0 <= j < 12 && j != c.index_of(b) ==> #[trigger] c.palaces@[j].branch != b,
{
    let m = c.menh_branch.idx() as int;
    let k = c.index_of(b);
    lemma_mod12_near(b.idx() - m);
    lemma_mod12_near(m + k);
    lemma_branch_at_idx(b.idx() as int, b);
    assert(c.palaces@[k].branch == EarthlyBranch::at((m + k) % 12));
    assert forall|j: int| 0 <= j < 12 && j != k implies #[trigger] c.palaces@[j].branch != b by {
        lemma_mod12_near(m + j);
        lemma_branch_at_idx((m + j) % 12, b);
        assert(c.palaces@[j].branch == EarthlyBranch::at((m + j) % 12));
    }
}

/// Lá số đúng khung có 12 cung với Chi đôi một khác nhau.
pub proof fn lemma_wf_cung_rieng(c: TuViChart)
    requires
        c.wf(),
    ensures
        c.cung_rieng(),
{
    assert forall|i: int, j: int| 0 <= i < 12 && 0 <= j < 12 && i != j implies #[trigger] c.palaces@[i].branch
        != #[trigger] c.palaces@[j].branch by {
        let b = c.palaces@[i].branch;
        lemma_index_of(c, b);
    }
}

impl TuViChart {
    /// Cung có Chi `branch`, nếu có.
    pub fn palace(&self, branch: EarthlyBranch) -> (r: Option<&Palace>)
        ensures
            r matches Some(p) ==> exists|i: int|
                0 <= i < self.palaces.len() && self.palaces@[i] == *p && p.branch == branch,
            r is None ==> forall|i: int|
                0 <= i < self.palaces.len() ==> #[trigger] self.palaces@[i].branch != branch,
    {
        let mut i: usize = 0;
        while i < self.palaces.len()
            invariant
                i <= self.palaces.len(),
                forall|j: int| 0 <= j < i ==> #[trigger] self.palaces@[j].branch != branch,
            decreases self.palaces.len() - i,
        {
            if self.palaces[i].branch == branch {
                return Some(&self.palaces[i]);
            }
            i = i + 1;
        }
        None
    }

    /// Cung có Chi `branch` (cung đầu tiên như thế), để sửa tại chỗ.
    pub fn palace_mut(&mut self, branch: EarthlyBranch) -> (r: Option<&mut Palace>)
        ensures
            final(self).birth == old(self).birth,
            final(self).gender == old(self).gender,
            final(self).lunar == old(self).lunar,
            final(self).cuc == old(self).cuc,
            final(self).menh_branch == old(self).menh_branch,
            final(self).than_branch == old(self).than_branch,
            final(self).palaces.len() == old(self).palaces.len(),
            match r {
                Some(p) => exists|i: int|
                    {
                        &&& 0 <= i < old(self).palaces.len()
                        &&& old(self).palaces@[i] == *p
                        &&& p.branch == branch
                        &&& forall|j: int| 0 <= j < i ==> #[trigger] old(self).palaces@[j].branch != branch
                        &&& final(self).palaces@ == old(self).palaces@.update(i, *final(p))
                    },
                None => {
                    &&& forall|i: int|
                        0 <= i < old(self).palaces.len() ==> #[trigger] old(self).palaces@[i].branch
                            != branch
                    &&& final(self).palaces@ == old(self).palaces@
                },
            },
    {
        let mut i: usize = 0;
        while i < self.palaces.len()
            invariant
                i <= self.palaces.len(),
                *self == *old(self),
                forall|j: int| 0 <= j < i ==> #[trigger] self.palaces@[j].branch != branch,
            decreases self.palaces.len() - i,
        {
            if self.palaces[i].branch == branch {
                return Some(&mut self.palaces[i]);
            }
            i = i + 1;
        }
        None
    }

    /// Cung Mệnh.
    pub fn menh(&self) -> (r: &Palace)
        requires
            self.wf(),
        ensures
            r.branch == self.menh_branch,
            r == self.palaces@[self.index_of(self.menh_branch)],
    {
        proof {
            lemma_index_of(*self, self.menh_branch);
        }
        let i = self.find_index(self.menh_branch);
        &self.palaces[i]
    }

    /// Cung an Thân.
    pub fn than(&self) -> (r: &Palace)
        requires
            self.wf(),
        ensures
            r.branch == self.than_branch,
            r == self.palaces@[self.index_of(self.than_branch)],
    {
        proof {
            lemma_index_of(*self, self.than_branch);
        }
        let i = self.find_index(self.than_branch);
        &self.palaces[i]
    }

    /// Thứ tự của cung có Chi `branch`.
    pub fn find_index(&self, branch: EarthlyBranch) -> (r: usize)
        requires
            self.wf(),
        ensures
            r == self.index_of(branch),
            r < 12,
    {
        proof {
            lemma_index_of(*self, branch);
        }
        let mut i: usize = 0;
        while i < 12
            invariant
                i <= 12,
                self.wf(),
                0 <= self.index_of(branch) < 12,
                self.palaces@[self.index_of(branch)].branch == branch,
                forall|j: int| 0 <= j < i ==> #[trigger] self.palaces@[j].branch != branch,
            decreases 12 - i,
        {
            if self.palaces[i].branch == branch {
                return i;
            }
            i = i + 1;
        }
        proof {
            assert(self.palaces@[self.index_of(branch)].branch != branch);
        }
        0
    }

    /// Thứ tự của cung có Chi `branch`, nếu có.
    fn vi_tri_cung(&self, branch: EarthlyBranch) -> (r: Option<usize>)
        ensures
            r matches Some(i) ==> i < self.palaces.len() && self.palaces@[i as int].branch == branch,
            r is None ==> forall|j: int|
                0 <= j < self.palaces.len() ==> #[trigger] self.palaces@[j].branch != branch,
    {
        let mut i: usize = 0;
        while i < self.palaces.len()
            invariant
                i <= self.palaces.len(),
                forall|j: int| 0 <= j < i ==> #[trigger] self.palaces@[j].branch != branch,
            decreases self.palaces.len() - i,
        {
            if self.palaces[i].branch == branch {
                return Some(i);
            }
            i = i + 1;
        }
        None
    }

    /// An sao `sao` vào cung có Chi `branch` (không có cung nào mang Chi đó thì
    /// lá số giữ nguyên).
    pub fn add_at(&mut self, branch: EarthlyBranch, sao: Sao)
        requires
            old(self).cung_rieng(),
        ensures
            final(self).cung_rieng(),
            old(self).wf() ==> final(self).wf(),
            same_frame(*final(self), *old(self)),
            forall|j: int|
                0 <= j < 12 ==> same_but_stars(#[trigger] final(self).palaces@[j], old(self).palaces@[j])
                    && final(self).palaces@[j].stars@ == old(self).palaces@[j].stars@ + (if old(
                    self,
                ).palaces@[j].branch == branch {
                    seq![sao]
                } else {
                    Seq::<Sao>::empty()
                }),
    {
        let ghost start = *self;
        match self.vi_tri_cung(branch) {
            Some(i) => {
                self.palaces[i].add_star(sao);
            },
            None => {},
        }
        proof {
            assert forall|j: int| 0 <= j < 12 implies #[trigger] self.palaces@[j].branch
                == start.palaces@[j].branch by {}
            assert forall|j: int|
                0 <= j < 12 implies same_but_stars(#[trigger] self.palaces@[j], start.palaces@[j])
                && self.palaces@[j].stars@ == start.palaces@[j].stars@ + (if start.palaces@[j].branch
                == branch {
                seq![sao]
            } else {
                Seq::<Sao>::empty()
            }) by {
                if self.palaces@[j].stars@ == start.palaces@[j].stars@ {
                    assert(start.palaces@[j].stars@ =~= start.palaces@[j].stars@ + Seq::<Sao>::empty());
                }
            }
            assert forall|i: int, j: int|
                0 <= i < 12 && 0 <= j < 12 && i != j implies #[trigger] self.palaces@[i].branch
                != #[trigger] self.palaces@[j].branch by {
                assert(start.palaces@[i].branch != start.palaces@[j].branch);
            }
        }
    }

    /// An lần lượt các sao của danh sách `ps` (sao, cung) vào lá số, mỗi sao vào
    /// cung mang Chi của nó.
    pub fn place_stars(&mut self, ps: &Vec<(Sao, EarthlyBranch)>)
        requires
            old(self).cung_rieng(),
        ensures
            final(self).cung_rieng(),
            old(self).wf() ==> final(self).wf(),
            same_frame(*final(self), *old(self)),
            forall|j: int|
                0 <= j < 12 ==> same_but_stars(#[trigger] final(self).palaces@[j], old(self).palaces@[j])
                    && final(self).palaces@[j].stars@ == old(self).palaces@[j].stars@ + placed_at(
                    ps@,
                    old(self).palaces@[j].branch,
                ),
    {
        let ghost start = *self;
        let mut k: usize = 0;
        while k < ps.len()
            invariant
                k <= ps.len(),
                self.cung_rieng(),
                start.cung_rieng(),
                start.wf() ==> self.wf(),
                start == *old(self),
                same_frame(*self, start),
                forall|j: int|
                    0 <= j < 12 ==> same_but_stars(#[trigger] self.palaces@[j], start.palaces@[j])
                        && self.palaces@[j].stars@ == start.palaces@[j].stars@ + placed_at(
                        ps@.subrange(0, k as int),
                        start.palaces@[j].branch,
                    ),
            decreases ps.len() - k,
        {
            let (sao, b) = ps[k];
            self.add_at(b, sao);
            proof {
                assert(ps@.subrange(0, k as int + 1).drop_last() =~= ps@.subrange(0, k as int));
                assert forall|j: int|
                    0 <= j < 12 implies same_but_stars(#[trigger] self.palaces@[j], start.palaces@[j])
                    && self.palaces@[j].stars@ == start.palaces@[j].stars@ + placed_at(
                    ps@.subrange(0, k as int + 1),
                    start.palaces@[j].branch,
                ) by {
                    let prev = placed_at(ps@.subrange(0, k as int), start.palaces@[j].branch);
                    if start.palaces@[j].branch == b {
                        assert(start.palaces@[j].stars@ + prev + seq![sao] =~= start.palaces@[j].stars@
                            + prev.push(sao));
                    } else {
                        assert(start.palaces@[j].stars@ + prev + Seq::<Sao>::empty()
                            =~= start.palaces@[j].stars@ + prev);
                    }
                }
            }
            k = k + 1;
        }
        proof {
            assert(ps@.subrange(0, ps.len() as int) =~= ps@);
        }
    }

    /// Ghi lần lượt các trạng thái Trường Sinh `ts` (trạng thái, cung) vào lá số.
    pub fn place_truong_sinh(&mut self, ts: &[(TruongSinhState, EarthlyBranch); 12])
        requires
            old(self).wf(),
        ensures
            final(self).wf(),
            same_frame(*final(self), *old(self)),
            forall|j: int|
                0 <= j < 12 ==> {
                    let a = #[trigger] final(self).palaces@[j];
                    let b = old(self).palaces@[j];
                    &&& a.name == b.name
                    &&& a.branch == b.branch
                    &&& a.stars@ == b.stars@
                    &&& a.is_menh == b.is_menh
                    &&& a.is_than == b.is_than
                    &&& a.truong_sinh@ == b.truong_sinh@ + placed_at(ts@, b.branch)
                },
    {
        let ghost start = *self;
        let mut k: usize = 0;
        while k < 12
            invariant
                k <= 12,
                ts@.len() == 12,
                self.wf(),
                start.wf(),
                start == *old(self),
                same_frame(*self, start),
                forall|j: int|
                    0 <= j < 12 ==> {
                        let a = #[trigger] self.palaces@[j];
                        let b = start.palaces@[j];
                        &&& a.name == b.name
                        &&& a.branch == b.branch
                        &&& a.stars@ == b.stars@
                        &&& a.is_menh == b.is_menh
                        &&& a.is_than == b.is_than
                        &&& a.truong_sinh@ == b.truong_sinh@ + placed_at(
                            ts@.subrange(0, k as int),
                            b.branch,
                        )
                    },
            decreases 12 - k,
        {
            let (state, b) = ts[k];
            proof {
                lemma_index_of(*self, b);
            }
            let i = self.find_index(b);
            self.palaces[i].truong_sinh.push(state);
            proof {
                assert(ts@.subrange(0, k as int + 1).drop_last() =~= ts@.subrange(0, k as int));
                assert forall|j: int|
                    0 <= j < 12 implies {
                        let a = #[trigger] self.palaces@[j];
                        let bb = start.palaces@[j];
                        &&& a.name == bb.name
                        &&& a.branch == bb.branch
                        &&& a.stars@ == bb.stars@
                        &&& a.is_menh == bb.is_menh
                        &&& a.is_than == bb.is_than
                        &&& a.truong_sinh@ == bb.truong_sinh@ + placed_at(
                            ts@.subrange(0, k as int + 1),
                            bb.branch,
                        )
                    } by {
                    let prev = placed_at(ts@.subrange(0, k as int), start.palaces@[j].branch);
                    if j == i {
                        assert(start.palaces@[j].truong_sinh@ + prev.push(state)
                            =~= (start.palaces@[j].truong_sinh@ + prev).push(state));
                    }
                }
            }
            k = k + 1;
        }
        proof {
            assert(ts@.subrange(0, 12) =~= ts@);
        }
    }
}

} // verus!
