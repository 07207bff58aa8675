//! Từ điển: tách frontmatter, dựng mục, xếp tệp theo tên.

use tinhban::tu_dien::{lay, phan_tich, phan_tich_tat_ca, sap_xep_theo_ten, tach_frontmatter};

#[test]
fn tach_frontmatter_co_ban() {
    let raw = "---\nslug: a\ntitle: A\n---\n\n# Thân bài\n\nnội dung\n";
    let (kv, body) = tach_frontmatter(raw).expect("phải tách được");
    assert_eq!(lay(&kv, "slug"), "a");
    assert_eq!(lay(&kv, "title"), "A");
    assert!(body.starts_with("# Thân bài"));
}

#[test]
fn frontmatter_gia_tri_rong_van_hop_le() {
    // Các mục "cung" có `nguhanh:` và `amduong:` để trống.
    let raw = "---\nslug: cung-menh\ntitle: Mệnh\nnguhanh: \namduong:\n---\n\nx\n";
    let (kv, _) = tach_frontmatter(raw).unwrap();
    assert_eq!(lay(&kv, "nguhanh"), "");
    assert_eq!(lay(&kv, "amduong"), "");
    assert_eq!(lay(&kv, "title"), "Mệnh");
}

#[test]
fn thieu_frontmatter_thi_bo_qua_chu_khong_panic() {
    assert!(tach_frontmatter("không có gì").is_none());
    assert!(phan_tich("x.md", "không có gì", 0).is_none());
    // Có frontmatter nhưng thiếu slug.
    assert!(phan_tich("x.md", "---\ntitle: A\n---\nbody", 0).is_none());
}

#[test]
fn phan_tich_dien_du_truong() {
    let raw = "---\nslug: tu-vi\ntitle: Tử Vi\nkind: chinh-tinh\nnhom: Bắc Đẩu\nnguhanh: Thổ\namduong: Dương\naliases: Đế tinh\n---\n\nThân bài.\n";
    let m = phan_tich("tu-vi.md", raw, 7).expect("phải dựng được mục");
    assert_eq!(m.slug, "tu-vi");
    assert_eq!(m.title, "Tử Vi");
    assert_eq!(m.kind, "chinh-tinh");
    assert_eq!(m.nhom, "Bắc Đẩu");
    assert_eq!(m.nguhanh, "Thổ");
    assert_eq!(m.amduong, "Dương");
    assert_eq!(m.aliases, "Đế tinh");
    assert_eq!(m.body, "Thân bài.\n");
    assert_eq!(m.ord, 7);
}

#[test]
fn khoa_lap_lai_lay_gia_tri_dau_tien() {
    let (kv, _) = tach_frontmatter("---\nslug: a\nslug: b\ntitle: T\n---\nx").unwrap();
    assert_eq!(lay(&kv, "slug"), "a");
    assert_eq!(lay(&kv, "khong-co"), "");
}

fn tep(ten: &str, noi_dung: &str) -> (String, String) {
    (ten.to_string(), noi_dung.to_string())
}

#[test]
fn xep_tep_theo_ten_on_dinh() {
    let v = vec![
        tep("b.md", "1"),
        tep("a.md", "2"),
        tep("c.md", "3"),
        tep("a.md", "4"),
        tep("Z.md", "5"),
        tep("đ.md", "6"),
    ];
    let r = sap_xep_theo_ten(v);
    let got: Vec<(&str, &str)> = r.iter().map(|(a, b)| (a.as_str(), b.as_str())).collect();
    assert_eq!(
        got,
        vec![
            ("Z.md", "5"),
            ("a.md", "2"),
            ("a.md", "4"),
            ("b.md", "1"),
            ("c.md", "3"),
            ("đ.md", "6"),
        ]
    );
}

#[test]
fn thu_tu_muc_theo_vi_tri_sau_khi_xep() {
    let v = vec![
        tep("tu-vi.md", "---\nslug: tu-vi\ntitle: Tử Vi\n---\nA"),
        tep("README.md", "# Từ điển Tử Vi — nội dung"),
        tep("cung-menh.md", "---\nslug: cung-menh\ntitle: Mệnh\n---\nB"),
    ];
    let muc = phan_tich_tat_ca(v);
    // Thứ tự sau khi xếp: README.md (0, bị bỏ), cung-menh.md (1), tu-vi.md (2).
    assert_eq!(muc.len(), 2);
    assert_eq!(muc[0].slug, "cung-menh");
    assert_eq!(muc[0].ord, 1);
    assert_eq!(muc[1].slug, "tu-vi");
    assert_eq!(muc[1].ord, 2);
}
