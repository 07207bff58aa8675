//! 12 cung của lá số Tử Vi.

use vstd::prelude::*;

use crate::canchi::{branch_of, EarthlyBranch};
use crate::modulo::rem_euclid_i64;
use crate::tuvi::stars::sao::Sao;
use crate::tuvi::truong_sinh::TruongSinhState;

verus! {

/// Tên 12 cung, theo thứ tự an từ cung Mệnh đi thuận.
#[derive(Debug, Clone, Copy, PartialEq, Eq, Structural, Hash)]
pub enum PalaceName {
    /// Mệnh.
    Menh,
    /// Phụ Mẫu.
    PhuMau,
    /// Phúc Đức.
    PhucDuc,
    /// Điền Trạch.
    DienTrach,
    /// Quan Lộc.
    QuanLoc,
    /// Nô Bộc.
    NoBoc,
    /// Thiên Di.
    ThienDi,
    /// Tật Ách.
    TatAch,
    /// Tài Bạch.
    TaiBach,
    /// Tử Tức.
    TuTuc,
    /// Phu Thê.
    PhuThe,
    /// Huynh Đệ.
    HuynhDe,
}

impl PalaceName {
    /// Vị trí 0..11 của cung theo thứ tự an.
    pub open spec fn idx(self) -> nat {
        match self {
            PalaceName::Menh => 0,
            PalaceName::PhuMau => 1,
            PalaceName::PhucDuc => 2,
            PalaceName::DienTrach => 3,
            PalaceName::QuanLoc => 4,
            PalaceName::NoBoc => 5,
            PalaceName::ThienDi => 6,
            PalaceName::TatAch => 7,
            PalaceName::TaiBach => 8,
            PalaceName::TuTuc => 9,
            PalaceName::PhuThe => 10,
            PalaceName::HuynhDe => 11,
        }
    }

    /// Cung ở vị trí `i` (0..11).
    pub open spec fn at(i: int) -> PalaceName {
        if i == 0 {
            PalaceName::Menh
        } else if i == 1 {
            PalaceName::PhuMau
        } else if i == 2 {
            PalaceName::PhucDuc
        } else if i == 3 {
            PalaceName::DienTrach
        } else if i == 4 {
            PalaceName::QuanLoc
        } else if i == 5 {
            PalaceName::NoBoc
        } else if i == 6 {
            PalaceName::ThienDi
        } else if i == 7 {
            PalaceName::TatAch
        } else if i == 8 {
            PalaceName::TaiBach
        } else if i == 9 {
            PalaceName::TuTuc
        } else if i == 10 {
            PalaceName::PhuThe
        } else {
            PalaceName::HuynhDe
        }
    }

    /// Tên tiếng Việt.
    pub open spec fn name_seq(self) -> Seq<char> {
        match self {
            PalaceName::Menh => "Mệnh"@,
            PalaceName::PhuMau => "Phụ Mẫu"@,
            PalaceName::PhucDuc => "Phúc Đức"@,
            PalaceName::DienTrach => "Điền Trạch"@,
            PalaceName::QuanLoc => "Quan Lộc"@,
            PalaceName::NoBoc => "Nô Bộc"@,
            PalaceName::ThienDi => "Thiên Di"@,
            PalaceName::TatAch => "Tật Ách"@,
            PalaceName::TaiBach => "Tài Bạch"@,
            PalaceName::TuTuc => "Tử Tức"@,
            PalaceName::PhuThe => "Phu Thê"@,
            PalaceName::HuynhDe => "Huynh Đệ"@,
        }
    }

    /// 12 cung theo thứ tự an: Mệnh, Phụ Mẫu, Phúc Đức, … Huynh Đệ.
    pub fn all_in_order() -> (r: [PalaceName; 12])
        ensures
            forall|i: int| 0 <= i < 12 ==> #[trigger] r@[i] == PalaceName::at(i),
    {
        [
            PalaceName::Menh, PalaceName::PhuMau, PalaceName::PhucDuc, PalaceName::DienTrach, PalaceName::QuanLoc, PalaceName::NoBoc, PalaceName::ThienDi, PalaceName::TatAch, PalaceName::TaiBach, PalaceName::TuTuc, PalaceName::PhuThe, PalaceName::HuynhDe,
        ]
    }

    /// Tên tiếng Việt.
    pub fn name_vn(self) -> (r: &'static str)
        ensures
            r@ == self.name_seq(),
    {
        match self {
            PalaceName::Menh => "Mệnh",
            PalaceName::PhuMau => "Phụ Mẫu",
            PalaceName::PhucDuc => "Phúc Đức",
            PalaceName::DienTrach => "Điền Trạch",
            PalaceName::QuanLoc => "Quan Lộc",
            PalaceName::NoBoc => "Nô Bộc",
            PalaceName::ThienDi => "Thiên Di",
            PalaceName::TatAch => "Tật Ách",
            PalaceName::TaiBach => "Tài Bạch",
            PalaceName::TuTuc => "Tử Tức",
            PalaceName::PhuThe => "Phu Thê",
            PalaceName::HuynhDe => "Huynh Đệ",
        }
    }

    /// Vị trí 0..11 của cung.
    pub fn index(self) -> (r: u8)
        ensures
            r == self.idx(),
    {
        match self {
            PalaceName::Menh => 0,
            PalaceName::PhuMau => 1,
            PalaceName::PhucDuc => 2,
            PalaceName::DienTrach => 3,
            PalaceName::QuanLoc => 4,
            PalaceName::NoBoc => 5,
            PalaceName::ThienDi => 6,
            PalaceName::TatAch => 7,
            PalaceName::TaiBach => 8,
            PalaceName::TuTuc => 9,
            PalaceName::PhuThe => 10,
            PalaceName::HuynhDe => 11,
        }
    }
}

/// Một cung: tên, Địa Chi, các sao và trạng thái vòng Trường Sinh đóng tại đó.
#[derive(Debug, Clone)]
pub struct Palace {
    pub name: PalaceName,
    pub branch: EarthlyBranch,
    pub stars: Vec<Sao>,
    pub truong_sinh: Vec<TruongSinhState>,
    pub is_menh: bool,
    pub is_than: bool,
}

impl Palace {
    /// Cung trống (chưa có sao, chưa đánh dấu Mệnh/Thân).
    pub fn new(name: PalaceName, branch: EarthlyBranch) -> (r: Palace)
        ensures
            r.name == name,
            r.branch == branch,
            r.stars@ == Seq::<Sao>::empty(),
            r.truong_sinh@ == Seq::<TruongSinhState>::empty(),
            !r.is_menh,
            !r.is_than,
    {
        Palace {
            name,
            branch,
            stars: Vec::new(),
            truong_sinh: Vec::new(),
            is_menh: false,
            is_than: false,
        }
    }

    /// Thêm một sao vào cung.
    pub fn add_star(&mut self, sao: Sao)
        ensures
            final(self).stars@ == old(self).stars@.push(sao),
            final(self).name == old(self).name,
            final(self).branch == old(self).branch,
            final(self).truong_sinh@ == old(self).truong_sinh@,
            final(self).is_menh == old(self).is_menh,
            final(self).is_than == old(self).is_than,
    {
        self.stars.push(sao);
    }

    /// Cung có sao `sao` không.
    pub fn has_star(&self, sao: Sao) -> (r: bool)
        ensures
            r == self.stars@.contains(sao),
    {
        let mut i: usize = 0;
        while i < self.stars.len()
            invariant
                i <= self.stars.len(),
                forall|j: int| 0 <= j < i ==> self.stars@[j] != sao,
            decreases self.stars.len() - i,
        {
            if self.stars[i] == sao {
                return true;
            }
            i = i + 1;
        }
        false
    }
}

/// Chỉ số Chi dời `offset` cung từ Chi `base` (thuận khi dương, nghịch khi âm).
pub open spec fn spec_dich_cung(base: EarthlyBranch, offset: int) -> EarthlyBranch {
    EarthlyBranch::at((base.idx() + offset) % 12)
}

/// Dời từ cung `base` đi `offset` cung (thuận khi dương, nghịch khi âm).
pub fn dich_cung(base: EarthlyBranch, offset: i64) -> (r: EarthlyBranch)
    requires
        base.idx() + offset <= i64::MAX,
    ensures
        r == spec_dich_cung(base, offset as int),
        r.idx() == (base.idx() + offset) % 12,
{
    let idx = rem_euclid_i64(base.index() as i64 + offset, 12);
    branch_of(idx as u8)
}

/// Tên tiếng Việt của 12 cung.
pub proof fn lemma_bang_name_seq_palacename()
    ensures
        PalaceName::Menh.name_seq() == "Mệnh"@,
        PalaceName::PhuMau.name_seq() == "Phụ Mẫu"@,
        PalaceName::PhucDuc.name_seq() == "Phúc Đức"@,
        PalaceName::DienTrach.name_seq() == "Điền Trạch"@,
        PalaceName::QuanLoc.name_seq() == "Quan Lộc"@,
        PalaceName::NoBoc.name_seq() == "Nô Bộc"@,
        PalaceName::ThienDi.name_seq() == "Thiên Di"@,
        PalaceName::TatAch.name_seq() == "Tật Ách"@,
        PalaceName::TaiBach.name_seq() == "Tài Bạch"@,
        PalaceName::TuTuc.name_seq() == "Tử Tức"@,
        PalaceName::PhuThe.name_seq() == "Phu Thê"@,
        PalaceName::HuynhDe.name_seq() == "Huynh Đệ"@,
{
}

} // verus!
