use accounting_bot::amount::Amount;
use accounting_bot::transaction_dto::{
    parsed_or_mismatch, timestamp_field, uuid_field, CalendarDate, CreateTransactionDto,
    TransactionDto, UtcTimestamp,
};
use accounting_bot::accounting_client_api::{
    create_expense_transaction_result, find_all_transaction_by_month_result, ApiError,
    RawPageReply, RawReply,
};
use accounting_bot::pagination::{PageBody, PageInfo};
use accounting_bot::wire::{WireError, WireField, WireRead, WireValue};
use std::str::FromStr;

fn s(text: &str) -> String {
    text.to_string()
}

fn text_field_of(name: &str, value: &str) -> WireField {
    WireField { name: s(name), value: WireValue::Text(s(value)) }
}

fn stored(id: &str, date: &str) -> Vec<WireField> {
    vec![
        text_field_of("id", id),
        WireField { name: s("amount"), value: WireValue::Number(Amount { mantissa: 1250, scale: 2 }) },
        text_field_of("category", "food"),
        WireField { name: s("description"), value: WireValue::Null },
        text_field_of("date", date),
        text_field_of("type", "EXPENSE"),
    ]
}

#[test]
fn transaction_is_read_from_its_wire_names() {
    let fields = stored("550e8400-e29b-41d4-a716-446655440000", "2024-01-01T00:00:00Z");
    let t = TransactionDto::from_wire(&fields).unwrap();
    assert_eq!(t.id, 0x550e8400_e29b_41d4_a716_446655440000);
    assert_eq!(t.id, uuid::Uuid::parse_str("550e8400-e29b-41d4-a716-446655440000").unwrap().as_u128());
    assert_eq!(t.amount, Amount { mantissa: 1250, scale: 2 });
    assert_eq!(t.category_code, "food");
    assert_eq!(t.description, None);
    assert_eq!(t.date, UtcTimestamp { seconds: 1_704_067_200, nanoseconds: 0 });
    assert_eq!(t.transaction_type, "EXPENSE");
}

#[test]
fn transaction_date_is_taken_to_universal_time() {
    let fields = stored("550e8400e29b41d4a716446655440000", "2024-01-01T02:00:00.5+02:00");
    let t = TransactionDto::from_wire(&fields).unwrap();
    assert_eq!(t.id, 0x550e8400_e29b_41d4_a716_446655440000);
    assert_eq!(t.date, UtcTimestamp { seconds: 1_704_067_200, nanoseconds: 500_000_000 });
    let epoch = vec![text_field_of("at", "1970-01-01T00:00:00+00:00")];
    assert_eq!(timestamp_field(&epoch, "at").unwrap(), UtcTimestamp { seconds: 0, nanoseconds: 0 });
}

#[test]
fn transaction_with_a_bad_field_is_refused() {
    let fields = stored("not-an-identifier", "2024-01-01T00:00:00Z");
    match TransactionDto::from_wire(&fields) {
        Err(WireError::Mismatch(name)) => assert_eq!(name, "id"),
        other => panic!("{:?}", other),
    }
    let fields = stored("550e8400-e29b-41d4-a716-446655440000", "yesterday");
    match TransactionDto::from_wire(&fields) {
        Err(WireError::Mismatch(name)) => assert_eq!(name, "date"),
        other => panic!("{:?}", other),
    }
    let mut fields = stored("550e8400-e29b-41d4-a716-446655440000", "2024-01-01T00:00:00Z");
    fields[2].name = s("category_code");
    match TransactionDto::from_wire(&fields) {
        Err(WireError::Missing(name)) => assert_eq!(name, "category"),
        other => panic!("{:?}", other),
    }
    let mut fields = stored("550e8400-e29b-41d4-a716-446655440000", "2024-01-01T00:00:00Z");
    fields[1].value = WireValue::Text(s("12.50"));
    match TransactionDto::from_wire(&fields) {
        Err(WireError::Mismatch(name)) => assert_eq!(name, "amount"),
        other => panic!("{:?}", other),
    }
    let mut fields = stored("550e8400-e29b-41d4-a716-446655440000", "2024-01-01T00:00:00Z");
    fields[5].name = s("transaction_type");
    match TransactionDto::from_wire(&fields) {
        Err(WireError::Missing(name)) => assert_eq!(name, "type"),
        other => panic!("{:?}", other),
    }
    let fields = vec![WireField { name: s("id"), value: WireValue::Null }];
    match uuid_field(&fields, "id") {
        Err(WireError::Mismatch(name)) => assert_eq!(name, "id"),
        other => panic!("{:?}", other),
    }
    match uuid_field(&fields, "key") {
        Err(WireError::Missing(name)) => assert_eq!(name, "key"),
        other => panic!("{:?}", other),
    }
}

#[test]
fn parsed_values_pass_and_failures_name_the_field() {
    assert_eq!(parsed_or_mismatch(Some(5u8), "n").unwrap(), 5);
    match parsed_or_mismatch(Option::<u8>::None, "n") {
        Err(e) => assert_eq!(e.describe(), "invalid type in field n"),
        other => panic!("{:?}", other),
    }
}

#[test]
fn new_transaction_goes_under_its_wire_names() {
    let create = CreateTransactionDto {
        amount: Amount { mantissa: 1250, scale: 2 },
        category_code: s("food"),
        description: Some(s("lunch")),
        date: Some(CalendarDate { year: 2024, month: 2, day: 29 }),
    };
    let fields = create.to_wire().unwrap();
    let names: Vec<String> = fields.iter().map(|f| f.name.clone()).collect();
    assert_eq!(names, vec![s("amount"), s("category"), s("description"), s("date")]);
    assert!(matches!(fields[0].value, WireValue::Number(Amount { mantissa: 1250, scale: 2 })));
    match (&fields[1].value, &fields[2].value, &fields[3].value) {
        (WireValue::Text(category), WireValue::Text(description), WireValue::Text(date)) => {
            assert_eq!(category, "food");
            assert_eq!(description, "lunch");
            assert_eq!(date, "2024-02-29");
        }
        other => panic!("{:?}", other),
    }
}

#[test]
fn new_transaction_without_a_date_sends_none() {
    let create = CreateTransactionDto {
        amount: Amount { mantissa: 5, scale: 0 },
        category_code: s("food"),
        description: None,
        date: None,
    };
    let fields = create.to_wire().unwrap();
    assert_eq!(fields.len(), 4);
    assert!(matches!(fields[2].value, WireValue::Null));
    assert_eq!(fields[3].name, "date");
    assert!(matches!(fields[3].value, WireValue::Null));
    let dated = create.to_wire_dated(WireValue::Text(s("2001-09-09")));
    assert!(matches!(&dated[3].value, WireValue::Text(t) if t == "2001-09-09"));
}

#[test]
fn new_transaction_on_no_day_of_the_calendar_is_not_sent() {
    let create = CreateTransactionDto {
        amount: Amount { mantissa: 5, scale: 0 },
        category_code: s("food"),
        description: None,
        date: Some(CalendarDate { year: 2023, month: 2, day: 29 }),
    };
    assert!(create.to_wire().is_none());
    let thirteenth = CreateTransactionDto {
        amount: Amount { mantissa: 5, scale: 0 },
        category_code: s("food"),
        description: None,
        date: Some(CalendarDate { year: 2023, month: 13, day: 1 }),
    };
    assert!(thirteenth.to_wire().is_none());
}

#[test]
fn amount_has_the_limits_of_a_decimal() {
    let parsed = rust_decimal::Decimal::from_str("12.50").unwrap();
    let amount = Amount::new(parsed.mantissa(), parsed.scale()).unwrap();
    assert_eq!(amount, Amount { mantissa: 1250, scale: 2 });
    let back = rust_decimal::Decimal::try_from_i128_with_scale(amount.mantissa, amount.scale).unwrap();
    assert_eq!(back.to_string(), "12.50");
    assert_eq!(back, parsed);

    let bound: i128 = 79228162514264337593543950336;
    for (mantissa, scale) in [(bound - 1, 0u32), (1 - bound, 28), (bound, 0), (-bound, 0), (1, 28), (1, 29), (0, 30)] {
        let ours = Amount::new(mantissa, scale).is_some();
        let theirs = rust_decimal::Decimal::try_from_i128_with_scale(mantissa, scale).is_ok();
        assert_eq!(ours, theirs, "{} at scale {}", mantissa, scale);
    }
}

#[test]
fn created_expense_is_read_from_the_reply() {
    let body = stored("550e8400-e29b-41d4-a716-446655440000", "2024-01-01T00:00:00Z");
    let t = create_expense_transaction_result(Ok(RawReply { status: 201, body: Ok(body) })).unwrap();
    assert_eq!(t.id, 0x550e8400_e29b_41d4_a716_446655440000);
    assert_eq!(t.amount, Amount { mantissa: 1250, scale: 2 });
    assert_eq!(t.date.seconds, 1_704_067_200);
    let body = stored("550e8400-e29b-41d4-a716-446655440000", "soon");
    match create_expense_transaction_result(Ok(RawReply { status: 201, body: Ok(body) })) {
        Err(ApiError::Decode(message)) => assert_eq!(message, "invalid type in field date"),
        other => panic!("{:?}", other),
    }
    match create_expense_transaction_result(Ok(RawReply { status: 422, body: Ok(Vec::new()) })) {
        Err(ApiError::Rejected(message)) => assert_eq!(message, "missing field id"),
        other => panic!("{:?}", other),
    }
}

#[test]
fn transactions_of_a_month_are_read_by_page() {
    let info = PageInfo { size: 2, number: 0, total_elements: 2, total_pages: 1 };
    let body = PageBody {
        content: Some(vec![
            stored("550e8400-e29b-41d4-a716-446655440000", "2024-01-01T00:00:00Z"),
            stored("550e8400-e29b-41d4-a716-446655440001", "2024-01-02T00:00:00Z"),
        ]),
        page: Some(info.to_wire()),
    };
    let page = find_all_transaction_by_month_result(Ok(RawPageReply { status: 200, body: Ok(body) })).unwrap();
    assert_eq!(page.content.len(), 2);
    assert_eq!(page.content[0].id, 0x550e8400_e29b_41d4_a716_446655440000);
    assert_eq!(page.content[1].id, 0x550e8400_e29b_41d4_a716_446655440001);
    assert_eq!(page.content[1].date.seconds, 1_704_153_600);
    assert_eq!(page.page, info);
    let body = PageBody {
        content: Some(vec![stored("x", "2024-01-01T00:00:00Z")]),
        page: Some(info.to_wire()),
    };
    match find_all_transaction_by_month_result(Ok(RawPageReply { status: 200, body: Ok(body) })) {
        Err(ApiError::Decode(message)) => assert_eq!(message, "invalid type in field id"),
        other => panic!("{:?}", other.map(|p| p.page)),
    }
}

#[test]
fn clone_of_a_new_transaction_keeps_its_values() {
    let create = CreateTransactionDto {
        amount: Amount { mantissa: 1250, scale: 2 },
        category_code: s("food"),
        description: Some(s("lunch")),
        date: Some(CalendarDate { year: 2024, month: 2, day: 29 }),
    };
    let copy = create.clone();
    assert_eq!(copy.amount, create.amount);
    assert_eq!(copy.category_code, "food");
    assert_eq!(copy.description, Some(s("lunch")));
    assert_eq!(copy.date, create.date);
}
