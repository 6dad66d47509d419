use tallysheet::view::rendering::digits;
use tallysheet::view::rendering::number_width;
use tallysheet::view::rendering::row_number;
use tallysheet::view::rendering::visible_rows;
use tallysheet::view::rendering::RowNumber;

#[test]
fn numbers_have_their_decimal_digits() {
    assert_eq!(digits(0), 1);
    assert_eq!(digits(9), 1);
    assert_eq!(digits(10), 2);
    assert_eq!(digits(99), 2);
    assert_eq!(digits(100), 3);
    assert_eq!(digits(65535), 5);
    assert_eq!(digits(usize::MAX), usize::MAX.to_string().len() as u16);
}

#[test]
fn the_number_column_has_room_for_the_largest_number() {
    assert_eq!(number_width(0), 1);
    assert_eq!(number_width(1), 4);
    assert_eq!(number_width(9), 4);
    assert_eq!(number_width(10), 5);
    assert_eq!(number_width(105), 6);
    assert_eq!(number_width(1000), 7);
}

#[test]
fn the_rows_that_fit_are_drawn() {
    assert_eq!(visible_rows(0, 5, 13), (0, 5));
    assert_eq!(visible_rows(0, 50, 13), (0, 10));
    assert_eq!(visible_rows(45, 50, 13), (45, 50));
    assert_eq!(visible_rows(20, 50, 13), (20, 30));
    assert_eq!(visible_rows(0, 0, 13), (0, 0));
    assert_eq!(visible_rows(7, 5, 13), (7, 7));
    assert_eq!(visible_rows(2, 5, 3), (2, 2));
    assert_eq!(visible_rows(2, 5, 4), (2, 3));
}

#[test]
fn rows_are_numbered_from_the_selection() {
    assert_eq!(row_number(4, Some(4)), RowNumber::Selected(5));
    assert_eq!(row_number(0, Some(4)), RowNumber::Distance(4));
    assert_eq!(row_number(3, Some(4)), RowNumber::Distance(1));
    assert_eq!(row_number(9, Some(4)), RowNumber::Distance(5));
    assert_eq!(row_number(0, None), RowNumber::Absolute(1));
    assert_eq!(row_number(41, None), RowNumber::Absolute(42));
    assert_eq!(row_number(0, Some(0)), RowNumber::Selected(1));
}
