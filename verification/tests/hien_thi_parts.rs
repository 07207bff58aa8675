//! Phần tính toán của các trang: địa bàn, ô cung, nhãn, escape HTML, markdown.

use tinhban::hien_thi::{
    chi_so_theo_loai, dong_gio, gio_sinh_chi, gioi_tinh_ho_so, gioi_tinh_vn, html_escape, nhan_nguon,
    o_cung, o_luoi, render_markdown, ten_loai_muc,
};
use tinhban::db::MucTuDien;
use tinhban::ngay_tot_xau::{GioDto, NguonDienGiai};
use tinhban::tuvi::{Palace, PalaceName, Sao, TruongSinhState};
use tinhban::tuvi::Gender;
use tinhban::tuvi::lap_la_so;
use tinhban::{BirthMoment, EarthlyBranch, LunarDate, SolarDate};

#[test]
fn dia_ban_dan_o_goc_duoi_trai() {
    assert_eq!(o_luoi(EarthlyBranch::Dan), (4, 1));
    assert_eq!(o_luoi(EarthlyBranch::Ty2), (1, 1));
    assert_eq!(o_luoi(EarthlyBranch::Than), (1, 4));
    assert_eq!(o_luoi(EarthlyBranch::Hoi), (4, 4));
    assert_eq!(o_luoi(EarthlyBranch::Ty), (4, 3));
}

#[test]
fn o_cung_tach_chinh_phu_tinh() {
    let mut p = Palace::new(PalaceName::Menh, EarthlyBranch::Ngo);
    p.is_menh = true;
    p.add_star(Sao::TuVi);
    p.add_star(Sao::VanXuong);
    p.add_star(Sao::ThienPhu);
    p.truong_sinh.push(TruongSinhState::TruongSinh);
    p.truong_sinh.push(TruongSinhState::MocDuc);
    let o = o_cung(&p);
    assert_eq!(o.lop, "cung menh");
    assert_eq!(o.kieu, "grid-row: 1; grid-column: 2;");
    assert_eq!(o.chinh, vec![Sao::TuVi, Sao::ThienPhu]);
    assert_eq!(o.phu, vec![Sao::VanXuong]);
    assert_eq!(o.truong_sinh, "Trường Sinh, Mộc Dục");

    let q = Palace::new(PalaceName::PhuMau, EarthlyBranch::Dan);
    let o = o_cung(&q);
    assert_eq!(o.lop, "cung");
    assert_eq!(o.kieu, "grid-row: 4; grid-column: 1;");
    assert!(o.chinh.is_empty() && o.phu.is_empty());
    assert_eq!(o.truong_sinh, "");
}

#[test]
fn nhan_hien_thi() {
    assert_eq!(gio_sinh_chi(0), "Tý");
    assert_eq!(gio_sinh_chi(7), "Thìn");
    assert_eq!(gio_sinh_chi(23), "Tý");
    assert_eq!(gio_sinh_chi(24), "");
    assert_eq!(gioi_tinh_vn(Gender::Nu), "Nữ");
    assert_eq!(gioi_tinh_ho_so("nam"), "Nam");
    assert_eq!(gioi_tinh_ho_so("nu"), "Nữ");
    assert_eq!(ten_loai_muc("chinh-tinh"), "Chính tinh");
    assert_eq!(ten_loai_muc("phu-tinh"), "Phụ tinh");
    assert_eq!(ten_loai_muc("cung"), "Cung");
    assert_eq!(nhan_nguon(Some(NguonDienGiai::Cache)), " (đọc từ cache)");
    assert_eq!(nhan_nguon(Some(NguonDienGiai::Scrape)), " (vừa tải mới)");
    assert_eq!(nhan_nguon(None), "");
}

#[test]
fn dong_gio_noi_bang_cham_giua() {
    let g = |chi: &str, khung: &str| GioDto {
        chi: chi.into(),
        than: String::new(),
        tot: true,
        khung: khung.into(),
    };
    let v = vec![g("Tý", "23:00–00:59"), g("Sửu", "01:00–02:59")];
    assert_eq!(dong_gio(&v), "Tý 23:00–00:59 · Sửu 01:00–02:59");
    assert_eq!(dong_gio(&Vec::new()), "");
}

fn muc(slug: &str, kind: &str) -> MucTuDien {
    MucTuDien {
        slug: slug.into(),
        title: slug.into(),
        kind: kind.into(),
        nhom: String::new(),
        nguhanh: String::new(),
        amduong: String::new(),
        aliases: String::new(),
        body: String::new(),
        ord: 0,
    }
}

#[test]
fn nhom_muc_theo_loai() {
    let v = vec![
        muc("tu-vi", "chinh-tinh"),
        muc("van-xuong", "phu-tinh"),
        muc("thien-phu", "chinh-tinh"),
        muc("cung-menh", "cung"),
    ];
    assert_eq!(chi_so_theo_loai(&v, "chinh-tinh"), vec![0, 2]);
    assert_eq!(chi_so_theo_loai(&v, "cung"), vec![3]);
    assert!(chi_so_theo_loai(&v, "khac").is_empty());
}

#[test]
fn escape_html_toi_thieu() {
    assert_eq!(html_escape("a & b <c> \"d\" 'e'"), "a &amp; b &lt;c&gt; &quot;d&quot; 'e'");
    assert_eq!(html_escape("Tử Vi"), "Tử Vi");
    assert_eq!(html_escape("&amp;"), "&amp;amp;");
}

#[test]
fn markdown_bat_bang_va_gach_ngang() {
    let h = render_markdown("# Tử Vi\n\n~~cũ~~ mới\n\n| a | b |\n|---|---|\n| 1 | 2 |\n");
    assert!(h.contains("<h1>Tử Vi</h1>"), "{h}");
    assert!(h.contains("<del>cũ</del>"), "{h}");
    assert!(h.contains("<table>"), "{h}");
}

#[test]
fn sua_cung_tai_cho() {
    let birth = BirthMoment { solar_date: SolarDate::new(1991, 10, 24).unwrap(), hour: 7, minute: 30 };
    let lunar = LunarDate { day: 17, month: 9, year: 1991, is_leap_month: false };
    let mut chart = lap_la_so(birth, lunar, Gender::Nam).unwrap();
    let truoc = chart.palace(EarthlyBranch::Ty).unwrap().stars.len();
    chart.palace_mut(EarthlyBranch::Ty).unwrap().add_star(Sao::DaoHoa);
    assert_eq!(chart.palace(EarthlyBranch::Ty).unwrap().stars.len(), truoc + 1);
    assert!(chart.palace(EarthlyBranch::Ty).unwrap().has_star(Sao::DaoHoa));
}
