use mtpdb_manager::text::{chars_of, first_place, parse_u16, u16_to_text};

#[test]
fn numbers_are_written_in_base_ten() {
    assert_eq!(u16_to_text(0), "0");
    assert_eq!(u16_to_text(9), "9");
    assert_eq!(u16_to_text(10), "10");
    assert_eq!(u16_to_text(15432), "15432");
    assert_eq!(u16_to_text(65535), "65535");
}

#[test]
fn every_number_reads_back() {
    let mut n: u32 = 0;
    while n <= 65535 {
        let text = u16_to_text(n as u16);
        assert_eq!(text, format!("{}", n));
        assert_eq!(parse_u16(&text), Some(n as u16));
        n += 1;
    }
}

#[test]
fn numbers_are_read_as_std_reads_them() {
    let texts = [
        "", "+", "-", "0", "00", "007", "+7", "++7", "-7", "-0", " 7", "7 ", "7a", "a7", "65535",
        "65536", "0065535", "99999", "4294967296", "18446744073709551617", "1_000", "٣", "1.0",
        "+65535", "+65536",
    ];
    for text in texts {
        assert_eq!(parse_u16(text), text.parse::<u16>().ok(), "{:?}", text);
    }
}

#[test]
fn characters_are_taken_one_by_one() {
    assert_eq!(chars_of("a—b"), vec!['a', '—', 'b']);
    assert_eq!(chars_of(""), Vec::<char>::new());
}

#[test]
fn first_of_several_places_is_found() {
    assert_eq!(first_place(&vec!['a', '-', '-'], '-'), Some(1));
    assert_eq!(first_place(&vec!['a', 'b'], '-'), None);
    assert_eq!(first_place(&vec![], '-'), None);
}
