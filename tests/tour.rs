use lkh_codec::problem::Problem;
use lkh_codec::tour::{ParseError, TourData};

#[test]
fn tour_section_is_read_zero_based() {
    let data = TourData::new("NAME : x\nTOUR_SECTION\n1\n3\n2\n-1\nEOF\n");
    let mut p = data.parse();
    assert_eq!(p.tour(), Ok(vec![0, 2, 1]));
}

#[test]
fn dimension_with_spaces() {
    let data = TourData::new("DIMENSION : 10\n");
    assert_eq!(data.parse().dimension(), Ok(10));
}

#[test]
fn dimension_not_a_number() {
    let data = TourData::new("DIMENSION: abc\n");
    assert_eq!(data.parse().dimension(), Err(ParseError::Format));
}

#[test]
fn dimension_missing() {
    let data = TourData::new("NAME: x\n");
    assert_eq!(data.parse().dimension(), Err(ParseError::NotFound));
}

#[test]
fn tour_missing_section() {
    let data = TourData::new("DIMENSION: 3\n1\n2\n-1\n");
    assert_eq!(data.parse().tour(), Err(ParseError::NotFound));
}

#[test]
fn tour_bad_entry() {
    let data = TourData::new("TOUR_SECTION\n1\nx\n-1\n");
    assert_eq!(data.parse().tour(), Err(ParseError::Format));
}

#[test]
fn tour_zero_entry_is_rejected() {
    let data = TourData::new("TOUR_SECTION\n0\n-1\n");
    assert_eq!(data.parse().tour(), Err(ParseError::Format));
}

#[test]
fn tour_without_terminator_ends_with_text() {
    let data = TourData::new("TOUR_SECTION\r\n 2 \r\n+1\n4294967295");
    assert_eq!(data.parse().tour(), Ok(vec![1, 0, 4294967294]));
}

#[test]
fn tour_entry_too_large() {
    let data = TourData::new("TOUR_SECTION\n4294967296\n-1\n");
    assert_eq!(data.parse().tour(), Err(ParseError::Format));
}

#[test]
fn fields_in_file_order() {
    let data = TourData::new("NAME: t\nDIMENSION = 3\nTOUR_SECTION\n3\n1\n2\n-1\nEOF\n");
    let mut p = data.parse();
    assert_eq!(p.dimension(), Ok(3));
    assert_eq!(p.tour(), Ok(vec![2, 0, 1]));
    assert_eq!(p.dimension(), Err(ParseError::NotFound));
}

#[test]
fn cursor_does_not_go_back() {
    let data = TourData::new("TOUR_SECTION\n1\n-1\nDIMENSION: 2\n");
    let mut p = data.parse();
    assert_eq!(p.dimension(), Ok(2));
    assert_eq!(p.tour(), Err(ParseError::NotFound));
}

#[test]
fn parse_takes_text_after_delimiter() {
    let data = TourData::new("COMMENT : a = b \nNAME= x:y\nTYPE TOUR\n");
    let mut p = data.parse();
    assert_eq!(p.parse("COMMENT"), Ok(String::from("a = b")));
    assert_eq!(p.parse("NAME"), Ok(String::from("x:y")));
    assert_eq!(p.parse("TYPE"), Ok(String::from("TYPE TOUR")));
    assert_eq!(p.parse("TYPE"), Err(ParseError::NotFound));
}

#[test]
fn parse_equals_delimiter() {
    let data = TourData::new("NAME = \u{a0}route\t\n");
    assert_eq!(data.parse().parse("NAME"), Ok(String::from("route")));
}

#[test]
fn encoded_labels_read_back_in_order() {
    let cs: Vec<Vec<String>> = (0..4).map(|i| vec![format!("{}e0", i)]).collect();
    let problem = Problem::with(String::new()).header().coords().write_coordinates(&cs).finish();
    let labels: Vec<&str> = problem.lines().map(|l| l.split(' ').next().unwrap()).collect();
    let answer = format!("TOUR_SECTION\n{}\n-1\n", labels.join("\n"));
    let data = TourData::new(&answer);
    assert_eq!(data.parse().tour(), Ok(vec![0, 1, 2, 3]));
}

#[test]
fn parse_cuts_at_earliest_delimiter() {
    let data = TourData::new("A=b:c\nB:d=e\n");
    let mut p = data.parse();
    assert_eq!(p.parse("A"), Ok(String::from("b:c")));
    assert_eq!(p.parse("B"), Ok(String::from("d=e")));
}
