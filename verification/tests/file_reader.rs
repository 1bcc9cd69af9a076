use budget::error::Error;
use budget::file_reader::FileReader;

#[test]
fn file_reader_test_read_line() {
    assert!(FileReader::read_line(Ok("| a | b | c |".to_string())).is_ok());
    assert_eq!(
        FileReader::read_line(Ok("| a | b | c |".to_string())),
        Ok(vec!["a".to_string(), "b".to_string(), "c".to_string()])
    );
}

#[test]
fn file_reader_test_read_line_empty() {
    assert!(FileReader::read_line(Ok("".to_string())).is_err());
    assert_eq!(FileReader::read_line(Ok("".to_string())), Err(Error::LineEmpty));
}

#[test]
fn file_reader_test_read_line_separator() {
    assert!(FileReader::read_line(Ok("----".to_string())).is_err());
    assert_eq!(FileReader::read_line(Ok("----".to_string())), Err(Error::LineSeparator));

    assert!(FileReader::read_line(Ok("--".to_string())).is_err());
    assert_eq!(FileReader::read_line(Ok("--".to_string())), Err(Error::LineSeparator));

    assert!(FileReader::read_line(Ok("| ------ | --- |".to_string())).is_err());
    assert_eq!(
        FileReader::read_line(Ok("| ------ | --- |".to_string())),
        Err(Error::LineSeparator)
    );

    assert!(FileReader::read_line(Ok("|------|---|".to_string())).is_err());
    assert_eq!(FileReader::read_line(Ok("|------|---|".to_string())), Err(Error::LineSeparator));

    assert!(FileReader::read_line(Ok("|--|---|".to_string())).is_err());
    assert_eq!(FileReader::read_line(Ok("|--|---|".to_string())), Err(Error::LineSeparator));
}

#[test]
fn file_reader_test_read_line_comment() {
    assert!(FileReader::read_line(Ok("> Something".to_string())).is_err());
    assert_eq!(FileReader::read_line(Ok("> Something".to_string())), Err(Error::LineComment));

    assert!(FileReader::read_line(Ok(">".to_string())).is_err());
    assert_eq!(FileReader::read_line(Ok(">".to_string())), Err(Error::LineComment));

    assert!(FileReader::read_line(Ok("> ".to_string())).is_err());
    assert_eq!(FileReader::read_line(Ok("> ".to_string())), Err(Error::LineComment));

    assert!(FileReader::read_line(Ok("<!-- some text".to_string())).is_err());
    assert_eq!(FileReader::read_line(Ok("<!-- some text".to_string())), Err(Error::LineComment));

    assert!(FileReader::read_line(Ok("<!--".to_string())).is_err());
    assert_eq!(FileReader::read_line(Ok("<!--".to_string())), Err(Error::LineComment));
}

#[test]
fn read_line_trims_cells_and_keeps_empty_ones() {
    assert_eq!(
        FileReader::read_line(Ok("  || 15.02.2019 |  € ||66,60|  ".to_string())),
        Ok(vec![
            "15.02.2019".to_string(),
            "€".to_string(),
            "".to_string(),
            "66,60".to_string()
        ])
    );
    assert_eq!(FileReader::read_line(Ok(" | | ".to_string())), Ok(vec!["".to_string()]));
    assert_eq!(FileReader::read_line(Ok(" || ".to_string())), Err(Error::LineEmpty));
    assert_eq!(FileReader::read_line(Ok("a | -- x".to_string())), Err(Error::LineSeparator));
    assert_eq!(
        FileReader::check_line_parts("a|b".to_string()),
        Ok(vec!["a".to_string(), "b".to_string()])
    );
}

#[test]
fn unreadable_line_is_a_file_error() {
    let failed = std::io::Error::new(std::io::ErrorKind::Other, "broken pipe");
    match FileReader::read_line(Err(failed)) {
        Err(Error::FileIO(text)) => assert_eq!(text, "broken pipe"),
        other => panic!("{:?}", other),
    }
}

#[test]
fn collect_leaves_the_header_out_and_keeps_the_errors() {
    let lines = vec![
        Ok("> Budget".to_string()),
        Ok("| Date | Currency | Amount | Type | Note |".to_string()),
        Ok("|------|----------|--------|------|------|".to_string()),
        Ok("| 15.02.2019 | € | 66.60 | T | Gas station |".to_string()),
        Ok("".to_string()),
        Ok("| 16.02.2019 | € | 5 | E | Lunch |".to_string()),
    ];
    let read = FileReader::collect(lines);
    assert_eq!(read.lines.len(), 2);
    assert_eq!(read.lines[0][0], "15.02.2019");
    assert_eq!(read.lines[1][4], "Lunch");
    assert_eq!(read.errors, vec![Error::LineComment, Error::LineSeparator, Error::LineEmpty]);
    let nothing = FileReader::collect(vec![]);
    assert!(nothing.lines.is_empty() && nothing.errors.is_empty());
}
