//! Helpers without state: text and date parsers, URL builders and input
//! validators.

pub mod parser;
pub mod transform;
pub mod validators;

pub use parser::{
    clean_text, extract_and_convert_shorthand, extract_film_slug, extract_numeric_text,
    extract_user_slug, get_body_content, get_meta_content, month_to_index, parse_iso_date,
    parse_rating, parse_runtime, parse_shorthand_count, parse_written_date, try_parse,
};
pub use transform::{
    add_page_to_url, build_diary_url, build_film_section_url, build_film_url, build_films_url,
    build_letterboxd_url, build_list_url, build_search_url, build_user_section_url, build_user_url,
    extract_page_from_url, get_ajax_url, normalize_letterboxd_url, remove_page_from_url,
};
pub use validators::{
    clean_and_validate_text, is_safe_text, is_valid_day, is_valid_email, is_valid_film_slug,
    is_valid_genre, is_valid_letterboxd_url, is_valid_list_slug, is_valid_month, is_valid_rating,
    is_valid_search_filter, is_valid_url, is_valid_username, is_valid_year, normalize_rating,
    sanitize_for_url,
};
