//! Lấy diễn giải ngày từ licham365.vn: phần quy tắc (URL, bóc trang, lỗi).

pub mod licham365;

pub use licham365::{
    build_url, parse_sections, text_of, KhoiVanBan, Licham365Detail, ScrapeError, Section,
    DEFAULT_BASE_URL, MIN_SECTIONS, REQUEST_TIMEOUT_SECS, SECTION_BLOCK_SELECTOR,
    SECTION_TITLE_SELECTOR, USER_AGENT,
};
