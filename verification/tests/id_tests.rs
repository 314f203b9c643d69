use backend::id::{format_id, gen_id, stamp, TIME2000};
use backend::text::{lower_ascii_exec, pad_left_exec};

/// The identifier written with `format!` width and fill specifiers.
fn std_format(time: i64, r: i64) -> String {
    format!(
        "{:>08}{:0>2}",
        format!("{:#}", radix_fmt::radix_36(time - TIME2000)),
        format!("{:#}", radix_fmt::radix_36(r)),
    )
    .to_lowercase()
}

#[test]
fn pad_left_pads_short_text() {
    assert_eq!(pad_left_exec("ab", ' ', 5), "   ab");
    assert_eq!(pad_left_exec("7", '0', 2), "07");
}

#[test]
fn pad_left_keeps_long_text() {
    assert_eq!(pad_left_exec("abcdef", ' ', 3), "abcdef");
    assert_eq!(pad_left_exec("", '0', 0), "");
}

#[test]
fn lower_ascii_lowers_letters_only() {
    assert_eq!(lower_ascii_exec("AZ09 x-"), "az09 x-");
}

#[test]
fn format_id_small_offset() {
    assert_eq!(format_id(TIME2000 + 5, 7), "       507");
}

#[test]
fn format_id_exact_value() {
    // 36^7 = 78364164096 is "10000000" in base 36; 1295 is "zz".
    assert_eq!(format_id(TIME2000 + 78364164096, 1295), "10000000zz");
    assert_eq!(format_id(TIME2000 + 35, 10), "       z0a");
}

#[test]
fn format_id_matches_std_formatting() {
    let times = [TIME2000, TIME2000 + 1, TIME2000 + 35, TIME2000 + 36, 1_700_000_000_000i64, 1_234_567_890_123i64];
    let draws = [0i64, 1, 35, 36, 1295];
    for t in times.iter() {
        for r in draws.iter() {
            assert_eq!(format_id(*t, *r), std_format(*t, *r));
        }
    }
}

#[test]
fn format_id_before_2000_wraps_like_std_formatting() {
    assert_eq!(format_id(TIME2000 - 1, 3), std_format(TIME2000 - 1, 3));
}

#[test]
fn gen_id_shares_the_time_part() {
    let t = 1_700_000_000_000i64;
    let id = gen_id(&t);
    assert_eq!(id.len(), 10);
    assert_eq!(&id[..8], &format_id(t, 0)[..8]);
    let tail = i64::from_str_radix(&id[8..], 36).unwrap();
    assert!(tail >= 0 && tail < 1296);
}

#[test]
fn stamp_gives_an_id_for_its_time() {
    let (time, id) = stamp();
    assert_eq!(id.len(), 10);
    assert_eq!(&id[..8], &format_id(time, 0)[..8]);
}

#[test]
fn id_decodes_offset_and_draw() {
    let id = format_id(TIME2000 + 123_456_789, 777);
    assert_eq!(id.len(), 10);
    assert_eq!(i64::from_str_radix(id[..8].trim(), 36).unwrap(), 123_456_789);
    assert_eq!(i64::from_str_radix(&id[8..], 36).unwrap(), 777);
}

#[test]
fn ids_of_different_times_differ() {
    assert_ne!(format_id(TIME2000 + 1, 5), format_id(TIME2000 + 2, 5));
    assert_ne!(format_id(TIME2000 + 1, 5), format_id(TIME2000 + 1, 6));
}

#[test]
fn ids_sort_by_time() {
    assert!(format_id(TIME2000 + 35, 1295) < format_id(TIME2000 + 36, 0));
    assert!(format_id(TIME2000 + 9, 1295) < format_id(TIME2000 + 10, 0));
    assert!(format_id(TIME2000, 1295) < format_id(TIME2000 + 1, 0));
    let times = [TIME2000, TIME2000 + 1, TIME2000 + 1295, 1_000_000_000_000i64, 1_700_000_000_000i64, 1_700_000_000_001i64];
    for w in times.windows(2) {
        assert!(gen_id(&w[0]) < gen_id(&w[1]));
    }
}
