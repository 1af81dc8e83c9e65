use gb_core::common;
use gb_core::common::{LogLevel, Logger, PerformanceMonitor};
use gb_core::config::Config;
use gb_core::error::{CpuError, Error, GameError, error_chain, error_to_string, is_fatal};

#[test]
fn bit_utilities_follow_their_formulas() {
    assert!(common::is_bit_set(0b1010, 1));
    assert!(!common::is_bit_set(0b1010, 0));
    assert_eq!(common::set_bit(0b1010, 0), 0b1011);
    assert_eq!(common::clear_bit(0b1010, 1), 0b1000);
    assert_eq!(common::toggle_bit(0b1010, 1), 0b1000);
    assert_eq!(common::toggle_bit(0b1010, 0), 0b1011);
    assert_eq!(common::get_bit(0b1010, 3), 1);
    assert_eq!(common::set_bits(0b0001, 0b1100), 0b1101);
    assert_eq!(common::clear_bits(0b1111, 0b0101), 0b1010);
    assert!(common::has_any_bit(0b1000, 0b1100));
    assert!(!common::has_all_bits(0b1000, 0b1100));
    assert!(common::has_all_bits(0b1100, 0b1100));
}

#[test]
fn gcd_and_lcm_on_known_values() {
    assert_eq!(common::gcd(12, 18), 6);
    assert_eq!(common::gcd(17, 5), 1);
    assert_eq!(common::gcd(0, 7), 7);
    assert_eq!(common::gcd(7, 0), 7);
    assert_eq!(common::gcd(0, 0), 0);
    assert_eq!(common::lcm(4, 6), 12);
    assert_eq!(common::lcm(0, 9), 0);
}

#[test]
fn clamp_orders_its_arguments() {
    assert_eq!(common::clamp(5u32, 1, 10), 5);
    assert_eq!(common::clamp(0u32, 1, 10), 1);
    assert_eq!(common::clamp(42u32, 1, 10), 10);
    assert_eq!(common::clamp(-3i64, -1, 1), -1);
}

#[test]
fn frequency_and_most_common() {
    let items: Vec<u64> = vec![3, 1, 3, 2, 3, 1];
    let freq = common::frequency_map(&items);
    assert_eq!(freq.len(), 3);
    assert_eq!(freq[0], (3, 3));
    assert_eq!(freq[1], (1, 2));
    assert_eq!(freq[2], (2, 1));
    assert_eq!(common::most_common(&items), Some(3));
    assert_eq!(common::most_common(&[]), None);
    assert!(common::has_intersection(&[1, 2], &[2, 9]));
    assert!(!common::has_intersection(&[1, 2], &[7, 9]));
}

#[test]
fn title_case_capitalises_word_starts() {
    assert_eq!(common::to_title_case("hello world"), "Hello World");
    assert_eq!(common::to_title_case("MIXED cAsE  text"), "Mixed Case  Text");
    assert_eq!(common::to_title_case(""), "");
    assert_eq!(common::to_title_case("  a"), "  A");
}

#[test]
fn string_helpers_match_std() {
    assert_eq!(common::trim("  spaced  "), "spaced");
    assert!(common::is_empty_or_whitespace("   \t"));
    assert!(!common::is_empty_or_whitespace(" x "));
    assert!(common::starts_with("gameboy", "game"));
    assert!(!common::starts_with("game", "gameboy"));
    assert!(common::ends_with("gameboy", "boy"));
    assert!(!common::ends_with("gameboy", "girl"));
}

#[test]
fn log_levels_round_trip_through_names() {
    assert_eq!(LogLevel::from_str("warn"), Some(LogLevel::Warn));
    assert_eq!(LogLevel::from_str("TRACE"), Some(LogLevel::Trace));
    assert_eq!(LogLevel::from_str("Info"), Some(LogLevel::Info));
    assert_eq!(LogLevel::from_str("loud"), None);
    assert_eq!(LogLevel::Error.as_str(), "ERROR");
}

#[test]
fn logger_filters_below_its_threshold() {
    let logger = Logger::new(LogLevel::Warn);
    assert_eq!(logger.warn("disk low"), Some(String::from("[WARN] disk low")));
    assert_eq!(logger.error("bad"), Some(String::from("[ERROR] bad")));
    assert_eq!(logger.info("chatty"), None);
    assert_eq!(logger.trace("chattier"), None);
}

#[test]
fn performance_monitor_books_elapsed_ticks() {
    let mut monitor = PerformanceMonitor::new(100);
    monitor.mark("boot", 150);
    monitor.mark("load", 400);
    let marks = monitor.get_measurements();
    assert_eq!(marks.len(), 2);
    assert_eq!(marks[0], (String::from("boot"), 50));
    assert_eq!(marks[1], (String::from("load"), 300));
    assert_eq!(monitor.total_time(1100), 1000);
    assert_eq!(monitor.total_time(0), 0);
}

#[test]
fn config_stores_and_parses_values() {
    let mut config = Config::new();
    assert!(!config.contains_key("speed"));
    config.set("speed", "60");
    config.set("debug", "true");
    config.set("speed", "30");
    assert_eq!(config.get("speed"), Some(&String::from("30")));
    assert_eq!(config.get_int("speed"), Some(30));
    assert_eq!(config.get_bool("debug"), Some(true));
    assert_eq!(config.get_bool("speed"), None);
    assert_eq!(config.get_int("debug"), None);
    assert_eq!(config.get_or_default("missing", "fallback"), "fallback");
    assert_eq!(config.keys(), vec![String::from("speed"), String::from("debug")]);

    let mut other = Config::new();
    other.set("volume", "11");
    config.merge(&other);
    assert_eq!(config.get_int("volume"), Some(11));
    assert_eq!(config.get_int("speed"), Some(30));
}

#[test]
fn error_messages_are_exact() {
    let e = Error::Cpu(CpuError::InvalidAddress(0x1234));
    assert_eq!(error_to_string(&e), "CPU Error: Invalid address: 0x1234");
    assert!(is_fatal(&e));

    let g = Error::Game(GameError::LoadError(String::from("no file")));
    assert_eq!(error_to_string(&g), "Game Error: Load error: no file");
    assert!(!is_fatal(&g));

    let chain = error_chain(&g);
    assert_eq!(chain, vec![String::from("Game Error: Load error: no file")]);
}
