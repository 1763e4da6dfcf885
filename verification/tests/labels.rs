use mass_transit::generate_data;
use mass_transit::labels::SUPPLY;

#[test]
fn a_supply_holds_a_hundred_thousand_labels() {
    assert_eq!(SUPPLY, 100_000);
    assert_eq!(generate_data(1).len(), 100_000);
}

#[test]
fn labels_are_the_two_numbers_in_decimal() {
    let data = generate_data(7);
    assert_eq!(data[0], "7-0");
    assert_eq!(data[9], "7-9");
    assert_eq!(data[10], "7-10");
    assert_eq!(data[4_205], "7-4205");
    assert_eq!(data[99_999], "7-99999");
}

#[test]
fn labels_carry_the_producer_number() {
    assert_eq!(generate_data(0)[1], "0-1");
    assert_eq!(generate_data(255)[100], "255-100");
}

#[test]
fn labels_of_one_supply_are_distinct() {
    let mut data = generate_data(3);
    data.sort();
    data.dedup();
    assert_eq!(data.len(), 100_000);
}
