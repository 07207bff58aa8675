//! Hồ sơ: kiểm tra dữ liệu nhập, lập cả hai lá số, cảnh báo phiên bản.

use tinhban::db::HoSo;
use tinhban::ho_so::{
    canh_bao_phien_ban, engine_ver, kiem_tra, lap_ca_hai, HoSoTomTat, LoiHoSo, NhapHoSo,
};
use tinhban::tuvi::Gender;
use tinhban::{BirthMoment, LunarDate, SolarDate};

fn nhap(ngay: &str, gio: u8, gt: &str) -> NhapHoSo {
    NhapHoSo {
        ten: "Nguyễn Văn A".into(),
        ngay_sinh: ngay.into(),
        gio,
        phut: 0,
        gioi_tinh: gt.into(),
        ghi_chu: String::new(),
    }
}

/// Tiết khí (Lập Xuân … Tiểu Hàn) của năm Bát Tự 1991, theo phép tính thiên
/// văn của ứng dụng.
const TIET_1991: [i64; 12] = [
    2448292, 2448322, 2448352, 2448383, 2448414, 2448445, 2448477, 2448508, 2448539, 2448569,
    2448598, 2448628,
];

/// Tiết khí của năm Bát Tự 1899.
const TIET_1899: [i64; 12] = [
    2414690, 2414720, 2414750, 2414781, 2414812, 2414843, 2414875, 2414906, 2414936, 2414966,
    2414996, 2415026,
];

#[test]
fn kiem_tra_chan_du_lieu_sai() {
    assert!(kiem_tra(&nhap("1991-10-24", 7, "nam")).is_ok());

    let mut n = nhap("1991-10-24", 7, "nam");
    n.ten = "   ".into();
    assert!(matches!(kiem_tra(&n), Err(LoiHoSo::DuLieu(_))), "tên rỗng phải bị chặn");

    assert!(
        matches!(kiem_tra(&nhap("24/10/1991", 7, "nam")), Err(LoiHoSo::DuLieu(_))),
        "ngày sai định dạng phải bị chặn"
    );

    assert!(
        matches!(kiem_tra(&nhap("1991-10-24", 25, "nam")), Err(LoiHoSo::DuLieu(_))),
        "giờ 25 phải bị chặn"
    );

    assert!(
        matches!(kiem_tra(&nhap("1991-10-24", 7, "khac")), Err(LoiHoSo::DuLieu(_))),
        "giới tính lạ phải bị chặn"
    );
}

/// Ngoài phạm vi 1900–2100 phải báo lỗi Engine chứ không panic.
#[test]
fn ngoai_pham_vi_bao_loi_engine() {
    let (_, birth, g) = kiem_tra(&nhap("1899-05-05", 7, "nam")).unwrap();
    let lunar = LunarDate { day: 26, month: 3, year: 1899, is_leap_month: false };
    assert!(matches!(
        lap_ca_hai(birth, g, lunar, 2414690, 2415055, &TIET_1899),
        Err(LoiHoSo::Engine(_))
    ));
}

#[test]
fn kiem_tra_chuan_hoa_du_lieu() {
    let mut n = nhap("  1991-10-24 ", 7, " nu ");
    n.phut = 45;
    let (date, birth, g) = kiem_tra(&n).unwrap();
    assert_eq!(date, SolarDate { year: 1991, month: 10, day: 24 });
    assert_eq!(birth, BirthMoment { solar_date: date, hour: 7, minute: 45 });
    assert_eq!(g, Gender::Nu);
}

#[test]
fn thong_diep_loi_nhap() {
    let mut n = nhap("1991-10-24", 7, "nam");
    n.ten = "".into();
    match kiem_tra(&n) {
        Err(LoiHoSo::DuLieu(m)) => assert_eq!(m, "Họ tên không được để trống."),
        _ => panic!("phải lỗi dữ liệu"),
    }
    match kiem_tra(&nhap("1991-02-30", 7, "nam")) {
        Err(LoiHoSo::DuLieu(m)) => {
            assert_eq!(m, "Ngày sinh \"1991-02-30\" không hợp lệ — cần định dạng YYYY-MM-DD.")
        }
        _ => panic!("ngày 30/2 phải bị chặn"),
    }
    let mut n = nhap("1991-10-24", 7, "nam");
    n.phut = 60;
    match kiem_tra(&n) {
        Err(LoiHoSo::DuLieu(m)) => assert_eq!(m, "Phút sinh phải trong khoảng 0–59."),
        _ => panic!("phút 60 phải bị chặn"),
    }
    match kiem_tra(&nhap("1991-10-24", 7, "khac")) {
        Err(e) => assert_eq!(
            e.to_string(),
            "Giới tính \"khac\" không hợp lệ — chỉ nhận 'nam' hoặc 'nu'."
        ),
        _ => panic!("giới tính lạ phải bị chặn"),
    }
    match kiem_tra(&nhap("1991-10-24", 24, "nam")) {
        Err(LoiHoSo::DuLieu(m)) => assert_eq!(m, "Giờ sinh phải trong khoảng 0–23."),
        _ => panic!("giờ 24 phải bị chặn"),
    }
}

#[test]
fn lap_ca_hai_cho_ngay_hop_le() {
    let (_, birth, g) = kiem_tra(&nhap("1991-10-24", 7, "nam")).unwrap();
    let lunar = LunarDate { day: 17, month: 9, year: 1991, is_leap_month: false };
    let (tuvi, bat_tu) = lap_ca_hai(birth, g, lunar, 2448292, 2448657, &TIET_1991).unwrap();
    assert_eq!(tuvi.palaces.len(), 12);
    assert_eq!(bat_tu.nguhanh_count.total(), 8);
}

#[test]
fn loi_engine_mang_chuoi_hien_thi() {
    let (_, birth, g) = kiem_tra(&nhap("1899-05-05", 7, "nam")).unwrap();
    let lunar = LunarDate { day: 26, month: 3, year: 1899, is_leap_month: false };
    match lap_ca_hai(birth, g, lunar, 2414690, 2415055, &TIET_1899) {
        Err(e) => assert_eq!(
            e.to_string(),
            "không lập được lá số: ngoài phạm vi: năm 1899 ngoài phạm vi hỗ trợ 1900–2100"
        ),
        Ok(_) => panic!("phải lỗi"),
    }
}

fn ho_so(ver: &str) -> HoSo {
    HoSo {
        id: 3,
        ten: "Nguyễn Văn A".into(),
        solar_date: "1991-10-24".into(),
        hour: 7,
        minute: 0,
        gender: "nam".into(),
        ghi_chu: "ghi chú".into(),
        tuvi_json: "{}".into(),
        bat_tu_json: "{}".into(),
        engine_ver: ver.into(),
        created_at: "2024-01-01 00:00:00".into(),
        updated_at: "2024-01-02 00:00:00".into(),
    }
}

#[test]
fn canh_bao_khi_khac_phien_ban() {
    assert_eq!(engine_ver(), "0.1.0");
    assert_eq!(canh_bao_phien_ban(&ho_so("0.1.0")), None);
    let m = canh_bao_phien_ban(&ho_so("0.0.9")).expect("phải cảnh báo");
    assert_eq!(
        m,
        "Lá số này được tính bằng engine phiên bản 0.0.9 , bản đang chạy là 0.1.0. Nội dung hiển thị giữ nguyên như lúc lưu. Nếu muốn áp dụng các bản sửa sau đó, hãy lập lại lá số mới với cùng ngày giờ sinh."
    );
}

#[test]
fn khong_canh_bao_ban_moi_hon() {
    assert_eq!(canh_bao_phien_ban(&ho_so("0.2.0")), None);
    assert_eq!(canh_bao_phien_ban(&ho_so("0.1.1")), None);
    assert_eq!(canh_bao_phien_ban(&ho_so("1.0.0")), None);
    assert!(canh_bao_phien_ban(&ho_so("0.0.12")).is_some());
    // Không đọc được thành x.y.z: không biết có cùng bản không, nên cảnh báo.
    assert!(canh_bao_phien_ban(&ho_so("dev")).is_some());
    assert!(canh_bao_phien_ban(&ho_so("0.1")).is_some());
}

#[test]
fn tom_tat_ho_so_giu_cac_truong() {
    let t = HoSoTomTat::from_ho_so(&ho_so("0.1.0"));
    assert_eq!(t.id, 3);
    assert_eq!(t.ten, "Nguyễn Văn A");
    assert_eq!(t.ngay_sinh, "1991-10-24");
    assert_eq!((t.gio, t.phut), (7, 0));
    assert_eq!(t.gioi_tinh, "nam");
    assert_eq!(t.engine_ver, "0.1.0");
    assert_eq!(t.updated_at, "2024-01-02 00:00:00");
}
