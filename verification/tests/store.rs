use region_api::envelope::Item;
use region_api::request::{Level, Query};
use region_api::store::{
    area_select, city_select, collect, fetch, new_connection, page_offset, prepare_select,
    province_select, select_for, street_select, village_select, StoreError, AREA_SQL, CITY_SQL,
    PROVINCE_SQL, STREET_SQL, VILLAGE_SQL,
};

fn query() -> Query {
    Query { page: 3, per_page: 10, province: 11, city: 1101, area: 110101, street: 110101001 }
}

#[test]
fn the_first_page_begins_at_the_first_row() {
    assert_eq!(page_offset(1, 20), 0);
    assert_eq!(page_offset(1, 0), 0);
    assert_eq!(page_offset(1, i64::MAX), 0);
    assert_eq!(page_offset(1, i64::MIN), 0);
}

#[test]
fn a_page_begins_after_the_pages_before_it() {
    assert_eq!(page_offset(2, 5), 5);
    assert_eq!(page_offset(3, 5), 10);
    assert_eq!(page_offset(7, 20), 120);
    assert_eq!(page_offset(1000001, 1000), 1000000000);
}

#[test]
fn a_page_before_the_first_has_a_negative_offset() {
    assert_eq!(page_offset(0, 5), -5);
    assert_eq!(page_offset(-2, 5), -15);
    assert_eq!(page_offset(3, -4), -8);
    assert_eq!(page_offset(0, -4), 4);
}

#[test]
fn an_offset_beyond_i64_is_held_at_the_bound() {
    assert_eq!(page_offset(i64::MAX, i64::MAX), i64::MAX);
    assert_eq!(page_offset(i64::MIN, i64::MIN), i64::MAX);
    assert_eq!(page_offset(i64::MIN, i64::MAX), i64::MIN);
    assert_eq!(page_offset(i64::MAX, i64::MIN), i64::MIN);
    assert_eq!(page_offset(i64::MIN, 1), i64::MIN);
    assert_eq!(page_offset(3, i64::MAX), i64::MAX);
    assert_eq!(page_offset(2, i64::MAX), i64::MAX);
    assert_eq!(page_offset(2, i64::MIN), i64::MIN);
    assert_eq!(page_offset(0, i64::MIN), i64::MAX);
    assert_eq!(page_offset(i64::MAX, 1), i64::MAX - 1);
    assert_eq!(page_offset(i64::MIN + 1, 1), i64::MIN);
}

#[test]
fn the_provinces_are_selected_whole() {
    let select = select_for(Level::Province, &query());
    assert_eq!(select.sql(), "select code, name from province order by code");
    assert_eq!(select.sql(), PROVINCE_SQL);
    assert!(select.binds().is_empty());
}

#[test]
fn the_cities_are_selected_by_province() {
    let select = select_for(Level::City, &query());
    assert_eq!(
        select.sql(),
        "select code, name from city where provinceCode = ? order by code limit ? offset ?"
    );
    assert_eq!(select.sql(), CITY_SQL);
    assert_eq!(select.binds(), &vec![11, 10, 20]);
}

#[test]
fn the_areas_are_selected_by_province_and_city() {
    let select = select_for(Level::Area, &query());
    assert_eq!(
        select.sql(),
        "select code, name from area where provinceCode = ? and cityCode = ? order by code limit ? offset ?"
    );
    assert_eq!(select.sql(), AREA_SQL);
    assert_eq!(select.binds(), &vec![11, 1101, 10, 20]);
}

#[test]
fn the_streets_are_selected_by_three_codes() {
    let select = select_for(Level::Street, &query());
    assert_eq!(
        select.sql(),
        "select code, name from street where provinceCode = ? and cityCode = ? and areaCode = ? order by code limit ? offset ?"
    );
    assert_eq!(select.sql(), STREET_SQL);
    assert_eq!(select.binds(), &vec![11, 1101, 110101, 10, 20]);
}

#[test]
fn the_villages_are_selected_by_four_codes() {
    let select = select_for(Level::Village, &query());
    assert_eq!(
        select.sql(),
        "select code, name from village where provinceCode = ? and cityCode = ? and areaCode = ? and streetCode = ? order by code limit ? offset ?"
    );
    assert_eq!(select.sql(), VILLAGE_SQL);
    assert_eq!(select.binds(), &vec![11, 1101, 110101, 110101001, 10, 20]);
}

#[test]
fn the_same_query_gives_the_same_statement() {
    for level in [Level::Province, Level::City, Level::Area, Level::Street, Level::Village] {
        assert_eq!(select_for(level, &query()), select_for(level, &query()));
    }
}

#[test]
fn a_database_that_cannot_be_opened_is_unavailable() {
    let outcome = new_connection("/no/such/directory/anywhere/data.sqlite");
    assert_eq!(outcome.err(), Some(StoreError::Unavailable));
}

#[test]
fn a_path_with_a_nul_is_unavailable() {
    let outcome = new_connection("data\0.sqlite");
    assert_eq!(outcome.err(), Some(StoreError::Unavailable));
}

#[test]
fn a_database_in_memory_can_be_opened() {
    assert!(new_connection(":memory:").is_ok());
}

#[test]
fn a_missing_table_fails_the_query() {
    let connection = new_connection(":memory:").unwrap();
    let select = select_for(Level::City, &query());
    assert_eq!(fetch(&connection, &select), Err(StoreError::Query));
}

#[test]
fn a_missing_column_fails_the_query() {
    let connection = new_connection(":memory:").unwrap();
    connection.execute("create table province (code integer)").unwrap();
    let select = select_for(Level::Province, &query());
    assert_eq!(fetch(&connection, &select), Err(StoreError::Query));
}

#[test]
fn a_region_without_a_name_fails_the_query() {
    let connection = new_connection(":memory:").unwrap();
    connection
        .execute(
            "create table province (code integer, name text);
             insert into province values (110000, 'Beijing');
             insert into province values (120000, null);",
        )
        .unwrap();
    let select = select_for(Level::Province, &query());
    assert_eq!(fetch(&connection, &select), Err(StoreError::Query));
}

#[test]
fn an_empty_table_gives_no_rows() {
    let connection = new_connection(":memory:").unwrap();
    connection.execute("create table province (code integer, name text)").unwrap();
    let select = select_for(Level::Province, &query());
    assert_eq!(fetch(&connection, &select), Ok(vec![]));
}

#[test]
fn rows_are_fetched_in_the_order_of_their_codes() {
    let connection = new_connection(":memory:").unwrap();
    connection
        .execute(
            "create table province (code integer, name text);
             insert into province values (310000, 'Shanghai');
             insert into province values (110000, 'Beijing');
             insert into province values (120000, 'Tianjin');",
        )
        .unwrap();
    let select = select_for(Level::Province, &query());
    assert_eq!(
        fetch(&connection, &select),
        Ok(vec![
            Item { code: 110000, name: "Beijing".to_string() },
            Item { code: 120000, name: "Tianjin".to_string() },
            Item { code: 310000, name: "Shanghai".to_string() },
        ])
    );
}

#[test]
fn the_bound_codes_select_the_rows() {
    let connection = new_connection(":memory:").unwrap();
    connection
        .execute(
            "create table village (code integer, name text, provinceCode integer,
                 cityCode integer, areaCode integer, streetCode integer);
             insert into village values (1, 'a', 11, 1101, 110101, 110101001);
             insert into village values (2, 'b', 12, 1101, 110101, 110101001);
             insert into village values (3, 'c', 11, 1102, 110101, 110101001);
             insert into village values (4, 'd', 11, 1101, 110102, 110101001);
             insert into village values (5, 'e', 11, 1101, 110101, 110101002);
             insert into village values (6, 'f', 11, 1101, 110101, 110101001);",
        )
        .unwrap();
    let first_page = Query { page: 1, ..query() };
    let select = select_for(Level::Village, &first_page);
    assert_eq!(
        fetch(&connection, &select),
        Ok(vec![
            Item { code: 1, name: "a".to_string() },
            Item { code: 6, name: "f".to_string() },
        ])
    );
}

#[test]
fn a_prepared_statement_is_the_one_described() {
    let connection = new_connection(":memory:").unwrap();
    connection
        .execute(
            "create table city (code integer, name text, provinceCode integer);
             insert into city values (1, 'a', 11);
             insert into city values (2, 'b', 11);
             insert into city values (3, 'c', 11);
             insert into city values (4, 'd', 12);
             insert into city values (5, 'e', 10);
             insert into city values (6, 'f', 20);
             insert into city values (7, 'g', 2);",
        )
        .unwrap();
    let second_of_two = Query { page: 2, per_page: 2, province: 11, city: 0, area: 0, street: 0 };
    let select = select_for(Level::City, &second_of_two);
    assert_eq!(select.binds(), &vec![11, 2, 2]);
    let mut statement = prepare_select(&connection, &select).unwrap();
    assert_eq!(statement.column_names(), ["code".to_string(), "name".to_string()]);
    assert_eq!(collect(&mut statement), Ok(vec![Item { code: 3, name: "c".to_string() }]));
}

#[test]
fn a_statement_cannot_be_prepared_without_its_table() {
    let connection = new_connection(":memory:").unwrap();
    let select = select_for(Level::Street, &query());
    assert_eq!(prepare_select(&connection, &select).err(), Some(StoreError::Query));
}

#[test]
fn a_region_is_reported_under_its_stored_code() {
    assert_eq!(Item::from_columns(0, String::new()).code, 0);
    assert_eq!(Item::from_columns(110105, "x".to_string()).code, 110105);
    assert_eq!(Item::from_columns(110101001, "x".to_string()).code, 110101001);
    assert_eq!(Item::from_columns(4294967295, "x".to_string()).code, 4294967295);
    assert_eq!(Item::from_columns(4294967296, "x".to_string()).code, 4294967296);
    assert_eq!(Item::from_columns(4294967301, "x".to_string()).code, 4294967301);
    assert_eq!(Item::from_columns(110101001001, "x".to_string()).code, 110101001001);
    assert_eq!(Item::from_columns(-1, "x".to_string()).code, -1);
    assert_eq!(Item::from_columns(i64::MIN, "x".to_string()).code, i64::MIN);
    assert_eq!(Item::from_columns(i64::MAX, "x".to_string()).code, i64::MAX);
    assert_eq!(Item::from_columns(7, "Dongcheng".to_string()).name, "Dongcheng");
    assert_eq!(
        Item::from_columns(110101, "Dongcheng".to_string()),
        Item { code: 110101, name: "Dongcheng".to_string() }
    );
}

#[test]
fn codes_beyond_32_bits_keep_their_order() {
    let connection = new_connection(":memory:").unwrap();
    connection
        .execute(
            "create table province (code integer, name text);
             insert into province values (4294967301, 'far');
             insert into province values (7, 'near');
             insert into province values (110101001001, 'farther');",
        )
        .unwrap();
    assert_eq!(
        fetch(&connection, &province_select()),
        Ok(vec![
            Item { code: 7, name: "near".to_string() },
            Item { code: 4294967301, name: "far".to_string() },
            Item { code: 110101001001, name: "farther".to_string() },
        ])
    );
}

#[test]
fn each_listing_has_its_statement() {
    let select = province_select();
    assert_eq!(select.sql(), PROVINCE_SQL);
    assert!(select.binds().is_empty());
    let select = city_select(11, 3, 10);
    assert_eq!(select.sql(), CITY_SQL);
    assert_eq!(select.binds(), &vec![11, 10, 20]);
    let select = area_select(11, 1101, 3, 10);
    assert_eq!(select.sql(), AREA_SQL);
    assert_eq!(select.binds(), &vec![11, 1101, 10, 20]);
    let select = street_select(11, 1101, 110101, 3, 10);
    assert_eq!(select.sql(), STREET_SQL);
    assert_eq!(select.binds(), &vec![11, 1101, 110101, 10, 20]);
    let select = village_select(11, 1101, 110101, 110101001, 3, 10);
    assert_eq!(select.sql(), VILLAGE_SQL);
    assert_eq!(select.binds(), &vec![11, 1101, 110101, 110101001, 10, 20]);
}

#[test]
fn the_page_and_the_page_size_are_not_confused() {
    assert_eq!(city_select(1, 2, 7).binds(), &vec![1, 7, 7]);
    assert_eq!(city_select(1, 7, 2).binds(), &vec![1, 2, 12]);
    assert_eq!(area_select(1, 2, 3, 50).binds(), &vec![1, 2, 50, 100]);
    assert_eq!(street_select(1, 2, 3, 50, 4).binds(), &vec![1, 2, 3, 4, 196]);
    assert_eq!(village_select(1, 2, 3, 4, 1, 20).binds(), &vec![1, 2, 3, 4, 20, 0]);
    for level in [Level::City, Level::Area, Level::Street, Level::Village] {
        assert_eq!(select_for(level, &query()).binds().len(), level.depth() as usize + 2);
    }
    assert_eq!(city_select(11, 3, 10), select_for(Level::City, &query()));
    assert_eq!(area_select(11, 1101, 3, 10), select_for(Level::Area, &query()));
    assert_eq!(street_select(11, 1101, 110101, 3, 10), select_for(Level::Street, &query()));
    assert_eq!(
        village_select(11, 1101, 110101, 110101001, 3, 10),
        select_for(Level::Village, &query())
    );
    assert_eq!(province_select(), select_for(Level::Province, &query()));
}
