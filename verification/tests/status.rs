use splash::status::{count_from_output, format_status, parse_count, status_from_outputs, u32_to_decimal};

#[test]
fn ahead_only() {
    assert_eq!(format_status(3, 0), "[info] You are ahead by 3 commit(s)");
}

#[test]
fn behind_only() {
    assert_eq!(format_status(0, 5), "[info] You are behind by 5 commit(s)");
}

#[test]
fn up_to_date() {
    assert_eq!(format_status(0, 0), "[info] You are up to date with upstream");
}

#[test]
fn ahead_wins_over_behind() {
    assert_eq!(format_status(2, 7), "[info] You are ahead by 2 commit(s)");
}

#[test]
fn multi_digit_counts() {
    assert_eq!(format_status(120, 0), "[info] You are ahead by 120 commit(s)");
    assert_eq!(format_status(0, 1004), "[info] You are behind by 1004 commit(s)");
    assert_eq!(
        format_status(u32::MAX, 0),
        "[info] You are ahead by 4294967295 commit(s)"
    );
}

#[test]
fn decimal_rendering() {
    assert_eq!(u32_to_decimal(0), "0");
    assert_eq!(u32_to_decimal(7), "7");
    assert_eq!(u32_to_decimal(10), "10");
    assert_eq!(u32_to_decimal(123), "123");
    assert_eq!(u32_to_decimal(4294967295), "4294967295");
}

#[test]
fn parse_plain_count() {
    assert_eq!(parse_count(&b"3\n".to_vec()), Some(3));
    assert_eq!(parse_count(&b"0\n".to_vec()), Some(0));
    assert_eq!(parse_count(&b"  42  ".to_vec()), Some(42));
    assert_eq!(parse_count(&b"17".to_vec()), Some(17));
}

#[test]
fn parse_accepts_one_leading_plus() {
    assert_eq!(parse_count(&b"+7\n".to_vec()), Some(7));
    assert_eq!(parse_count(&b"++7".to_vec()), None);
}

#[test]
fn parse_rejects_garbage() {
    assert_eq!(parse_count(&b"".to_vec()), None);
    assert_eq!(parse_count(&b"   \n".to_vec()), None);
    assert_eq!(parse_count(&b"abc".to_vec()), None);
    assert_eq!(parse_count(&b"-7".to_vec()), None);
    assert_eq!(parse_count(&b"1 2".to_vec()), None);
    assert_eq!(parse_count(&b"3x".to_vec()), None);
    assert_eq!(parse_count(&b"+".to_vec()), None);
    assert_eq!(parse_count(&vec![0xff, 0x35]), None);
}

#[test]
fn parse_respects_the_u32_range() {
    assert_eq!(parse_count(&b"4294967295".to_vec()), Some(u32::MAX));
    assert_eq!(parse_count(&b"4294967296".to_vec()), None);
    assert_eq!(parse_count(&b"99999999999999999999".to_vec()), None);
}

#[test]
fn failed_query_counts_as_zero() {
    assert_eq!(count_from_output(&None), 0);
    assert_eq!(count_from_output(&Some(b"nonsense".to_vec())), 0);
    assert_eq!(count_from_output(&Some(b"12".to_vec())), 12);
}

#[test]
fn both_queries_failing_reads_up_to_date() {
    assert_eq!(
        status_from_outputs(&None, &None),
        "[info] You are up to date with upstream"
    );
    assert_eq!(
        status_from_outputs(&Some(b"oops".to_vec()), &Some(b"".to_vec())),
        "[info] You are up to date with upstream"
    );
}

#[test]
fn status_straight_from_outputs() {
    assert_eq!(
        status_from_outputs(&Some(b"2\n".to_vec()), &Some(b"7\n".to_vec())),
        "[info] You are ahead by 2 commit(s)"
    );
    assert_eq!(
        status_from_outputs(&Some(b"0\n".to_vec()), &Some(b"5\n".to_vec())),
        "[info] You are behind by 5 commit(s)"
    );
    assert_eq!(
        status_from_outputs(&None, &Some(b"5\n".to_vec())),
        "[info] You are behind by 5 commit(s)"
    );
    assert_eq!(
        status_from_outputs(&Some(b"0\n".to_vec()), &Some(b"0\n".to_vec())),
        "[info] You are up to date with upstream"
    );
}
