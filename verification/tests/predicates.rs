use sql_fragments::{pk_where_list, ColumnInfo, DecodeError};

fn col(name: &str) -> ColumnInfo<'_> {
    ColumnInfo { name: name.as_bytes() }
}

#[test]
fn single_column_without_prefix() {
    let cols = [col("id")];
    assert_eq!(pk_where_list(&cols, None), Ok(String::from("\"id\" = \"id\"")));
}

#[test]
fn two_columns_with_prefix() {
    let cols = [col("id"), col("tenant")];
    assert_eq!(
        pk_where_list(&cols, Some("OLD.")),
        Ok(String::from("\"id\" = OLD.\"id\" AND \"tenant\" = OLD.\"tenant\""))
    );
}

#[test]
fn empty_column_list_gives_empty_text() {
    let cols: [ColumnInfo; 0] = [];
    assert_eq!(pk_where_list(&cols, None), Ok(String::new()));
    assert_eq!(pk_where_list(&cols, Some("NEW.")), Ok(String::new()));
}

#[test]
fn quote_in_column_name_is_doubled() {
    let cols = [col("say\"hi")];
    assert_eq!(
        pk_where_list(&cols, None),
        Ok(String::from("\"say\"\"hi\" = \"say\"\"hi\""))
    );
}

#[test]
fn three_columns_keep_their_order() {
    let cols = [col("c"), col("a"), col("b")];
    assert_eq!(
        pk_where_list(&cols, None),
        Ok(String::from("\"c\" = \"c\" AND \"a\" = \"a\" AND \"b\" = \"b\""))
    );
}

#[test]
fn prefix_is_inserted_as_given() {
    let cols = [col("k")];
    assert_eq!(
        pk_where_list(&cols, Some("\"t1\".")),
        Ok(String::from("\"k\" = \"t1\".\"k\""))
    );
    assert_eq!(pk_where_list(&cols, Some("")), Ok(String::from("\"k\" = \"k\"")));
}

#[test]
fn non_ascii_name_is_decoded() {
    let cols = [col("größe")];
    assert_eq!(
        pk_where_list(&cols, Some("NEW.")),
        Ok(String::from("\"größe\" = NEW.\"größe\""))
    );
}

#[test]
fn undecodable_name_is_reported() {
    let bad: [u8; 3] = [b'a', 0xff, b'b'];
    let cols = [col("id"), ColumnInfo { name: &bad }, col("x")];
    assert_eq!(
        pk_where_list(&cols, None),
        Err(DecodeError { column: 1, valid_up_to: 1 })
    );
}

#[test]
fn first_undecodable_name_wins() {
    let cut: [u8; 4] = [b'o', b'k', 0xe2, 0x82];
    let bad: [u8; 1] = [0x80];
    let cols = [ColumnInfo { name: &cut }, ColumnInfo { name: &bad }];
    assert_eq!(
        pk_where_list(&cols, Some("OLD.")),
        Err(DecodeError { column: 0, valid_up_to: 2 })
    );
}
