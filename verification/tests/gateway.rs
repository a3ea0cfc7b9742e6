use accounting_bot::accounting_client_api::{
    create_category_result, failure_of, list_categories_result, login_telegram_result,
    sum_today_expenses_grouped_by_category_result, AccountingClientApiRequest, ApiError,
    HttpMethod, RawPageReply, RawReply, CREATE_CATEGORY_PATH, LOGIN_TELEGRAM_PATH,
};
use accounting_bot::amount::Amount;
use accounting_bot::category_dto::{CategoryDto, CreateCategoryDto};
use accounting_bot::pagination::{PageBody, PageInfo, Pagination};
use accounting_bot::session::Session;
use accounting_bot::transaction_dto::{
    CategoryExpenseSummaryDto, MonthlyTransactionQuery,
};
use accounting_bot::user_dto::JwtResponse;
use accounting_bot::wire::{
    find_field, items_from_wire, optional_text_field, text_field, WireError, WireField, WireRead,
    WireValue,
};

fn s(text: &str) -> String {
    text.to_string()
}

fn text_field_of(name: &str, value: &str) -> WireField {
    WireField { name: s(name), value: WireValue::Text(s(value)) }
}

fn text_of(field: &WireField) -> (String, String) {
    match &field.value {
        WireValue::Text(t) => (field.name.clone(), t.clone()),
        other => panic!("field {} holds {:?}", field.name, other),
    }
}

fn gateway() -> AccountingClientApiRequest {
    let session = Session {
        user_id: "123456789".to_string(),
        username: "test".to_string(),
        chat_id: "Faick".to_string(),
        jwt: None,
    };
    AccountingClientApiRequest::new(s("http://localhost:8080"), s("bot"), s("hush"), session)
}

#[test]
fn test_login_telegram() {
    let api = gateway();
    let request = api.login_telegram_request(&"123".to_string(), &"test".to_string());
    assert_eq!(request.telegram_id, "123");
    assert_eq!(request.username, "test");
    assert_eq!(request.client_id, "bot");
    assert_eq!(request.secret, "hush");
    let call = api.login_telegram_call(&"123".to_string(), &"test".to_string());
    assert_eq!(call.method, HttpMethod::Post);
    assert_eq!(call.url, "http://localhost:8080/users/login/telegram");
    assert!(call.query.is_empty());
    let sent = call.body.unwrap();
    assert_eq!(sent.len(), 4);
    assert_eq!(request.to_wire().len(), 4);
    assert_eq!(text_of(&sent[0]), (s("client_id"), s("bot")));
    assert_eq!(text_of(&sent[1]), (s("secret"), s("hush")));
    assert_eq!(text_of(&sent[2]), (s("telegram_id"), s("123")));
    assert_eq!(text_of(&sent[3]), (s("username"), s("test")));
    assert_eq!(api.login_telegram_url(), "http://localhost:8080/users/login/telegram");

    let body = vec![text_field_of("token", "abc"), text_field_of("refresh_token", "def")];
    assert!(JwtResponse::from_wire(&body).is_ok());
    let res = login_telegram_result(Ok(RawReply { status: 200, body: Ok(body) }));
    assert!(res.is_ok());
    let jwt = res.unwrap();
    assert_eq!(jwt.access_token, "abc");
    assert_eq!(jwt.refresh_token, "def");
}

#[test]
fn test_create_category() {
    let data = CreateCategoryDto {
        code: "Test".to_string(),
        name: "Test".to_string(),
        description: Option::<String>::None,
        category_type: "INCOME".to_string(),
    };
    let api = gateway();
    assert_eq!(api.create_category_url(), "http://localhost:8080/categories");
    let call = api.create_category_call(&data);
    assert_eq!(call.method, HttpMethod::Post);
    assert_eq!(call.url, "http://localhost:8080/categories");
    assert!(call.query.is_empty());
    assert_eq!(data.to_wire().len(), 4);
    let sent = call.body.unwrap();
    assert_eq!(sent.len(), 4);
    assert_eq!(text_of(&sent[0]), (s("code"), s("Test")));
    assert_eq!(text_of(&sent[1]), (s("name"), s("Test")));
    assert_eq!(sent[2].name, "description");
    assert!(matches!(sent[2].value, WireValue::Null));
    assert_eq!(text_of(&sent[3]), (s("type"), s("INCOME")));

    let mut echoed = vec![text_field_of("id", "c-1")];
    echoed.extend(sent);
    let res = create_category_result(Ok(RawReply { status: 201, body: Ok(echoed) }));
    assert!(res.is_ok());
    let res = res.unwrap();
    assert_eq!(res.id, "c-1");
    assert_eq!(res.code, "Test");
    assert_eq!(res.name, "Test");
    assert_eq!(res.description, None);
    assert_eq!(res.category_type, "INCOME");
}

#[test]
fn category_type_travels_as_type() {
    let category = CategoryDto {
        id: s("c-9"),
        code: s("food"),
        name: s("Food"),
        description: Some(s("groceries")),
        category_type: s("EXPENSE"),
    };
    let fields = category.to_wire();
    assert_eq!(fields.len(), 5);
    assert_eq!(text_of(&fields[4]), (s("type"), s("EXPENSE")));
    assert!(fields.iter().all(|f| f.name != "category_type"));
    let back = CategoryDto::from_wire(&fields).unwrap();
    assert_eq!(back.id, "c-9");
    assert_eq!(back.code, "food");
    assert_eq!(back.name, "Food");
    assert_eq!(back.description, Some(s("groceries")));
    assert_eq!(back.category_type, "EXPENSE");
}

#[test]
fn category_decoding_says_what_is_wrong() {
    let full = vec![
        text_field_of("id", "1"),
        text_field_of("code", "c"),
        text_field_of("name", "n"),
        text_field_of("type", "INCOME"),
    ];
    let ok = CategoryDto::from_wire(&full).unwrap();
    assert_eq!(ok.description, None);

    let no_code = vec![text_field_of("id", "1"), text_field_of("name", "n"), text_field_of("type", "INCOME")];
    match CategoryDto::from_wire(&no_code) {
        Err(WireError::Missing(name)) => assert_eq!(name, "code"),
        other => panic!("{:?}", other),
    }
    let renamed = vec![
        text_field_of("id", "1"),
        text_field_of("code", "c"),
        text_field_of("name", "n"),
        text_field_of("category_type", "INCOME"),
    ];
    match CategoryDto::from_wire(&renamed) {
        Err(WireError::Missing(name)) => assert_eq!(name, "type"),
        other => panic!("{:?}", other),
    }
    let number_name = vec![
        text_field_of("id", "1"),
        text_field_of("code", "c"),
        WireField { name: s("name"), value: WireValue::Number(Amount { mantissa: 3, scale: 0 }) },
        text_field_of("type", "INCOME"),
    ];
    match CategoryDto::from_wire(&number_name) {
        Err(e) => {
            assert!(matches!(e, WireError::Mismatch(_)));
            assert_eq!(e.describe(), "invalid type in field name");
        }
        other => panic!("{:?}", other),
    }
    let odd_description = vec![
        text_field_of("id", "1"),
        text_field_of("code", "c"),
        text_field_of("name", "n"),
        WireField { name: s("description"), value: WireValue::Other },
        text_field_of("type", "INCOME"),
    ];
    match CategoryDto::from_wire(&odd_description) {
        Err(WireError::Mismatch(name)) => assert_eq!(name, "description"),
        other => panic!("{:?}", other),
    }
}

#[test]
fn fields_are_found_by_their_first_name() {
    let fields = vec![
        text_field_of("a", "1"),
        text_field_of("b", "2"),
        text_field_of("a", "3"),
        WireField { name: s("n"), value: WireValue::Null },
    ];
    assert_eq!(find_field(&fields, "a"), Some(0));
    assert_eq!(find_field(&fields, "b"), Some(1));
    assert_eq!(find_field(&fields, "n"), Some(3));
    assert_eq!(find_field(&fields, "c"), None);
    assert_eq!(text_field(&fields, "a").unwrap(), "1");
    assert_eq!(optional_text_field(&fields, "n").unwrap(), None);
    assert_eq!(optional_text_field(&fields, "zz").unwrap(), None);
    assert_eq!(optional_text_field(&fields, "b").unwrap(), Some(s("2")));
    match text_field(&fields, "n") {
        Err(WireError::Mismatch(name)) => assert_eq!(name, "n"),
        other => panic!("{:?}", other),
    }
    match text_field(&fields, "zz") {
        Err(e) => assert_eq!(e.describe(), "missing field zz"),
        other => panic!("{:?}", other),
    }
}

#[test]
fn login_reply_without_a_token_fails_to_decode() {
    let body = vec![text_field_of("access_token", "abc"), text_field_of("refresh_token", "def")];
    match login_telegram_result(Ok(RawReply { status: 200, body: Ok(body) })) {
        Err(ApiError::Decode(message)) => assert_eq!(message, "missing field token"),
        other => panic!("{:?}", other),
    }
    let body = vec![text_field_of("token", "abc")];
    match JwtResponse::from_wire(&body) {
        Err(WireError::Missing(name)) => assert_eq!(name, "refresh_token"),
        other => panic!("{:?}", other),
    }
}

#[test]
fn results_tell_the_failures_apart() {
    match login_telegram_result(Err(s("connection refused"))) {
        Err(e) => {
            assert!(matches!(e, ApiError::Transport(_)));
            assert_eq!(e.message(), "connection refused");
        }
        other => panic!("{:?}", other),
    }
    match login_telegram_result(Ok(RawReply { status: 401, body: Err(s("unauthorized")) })) {
        Err(e) => {
            assert!(matches!(e, ApiError::Rejected(_)));
            assert_eq!(e.message(), "unauthorized");
        }
        other => panic!("{:?}", other),
    }
    match login_telegram_result(Ok(RawReply { status: 299, body: Err(s("expected value")) })) {
        Err(e) => {
            assert!(matches!(e, ApiError::Decode(_)));
            assert_eq!(e.message(), "expected value");
        }
        other => panic!("{:?}", other),
    }
    let error_body = vec![text_field_of("error", "unknown client")];
    match create_category_result(Ok(RawReply { status: 403, body: Ok(error_body) })) {
        Err(ApiError::Rejected(message)) => assert_eq!(message, "missing field id"),
        other => panic!("{:?}", other),
    }
    match create_category_result(Err(s("timed out"))) {
        Err(ApiError::Transport(message)) => assert_eq!(message, "timed out"),
        other => panic!("{:?}", other),
    }
    assert!(matches!(failure_of(199, s("x")), ApiError::Rejected(_)));
    assert!(matches!(failure_of(200, s("x")), ApiError::Decode(_)));
    assert!(matches!(failure_of(300, s("x")), ApiError::Rejected(_)));
    let body = vec![text_field_of("token", "abc"), text_field_of("refresh_token", "def")];
    let odd = login_telegram_result(Ok(RawReply { status: 500, body: Ok(body) }));
    assert_eq!(odd.unwrap().access_token, "abc");
}

fn category_fields(id: &str, kind: &str) -> Vec<WireField> {
    vec![
        text_field_of("id", id),
        text_field_of("code", "c"),
        text_field_of("name", "n"),
        text_field_of("type", kind),
    ]
}

#[test]
fn categories_are_listed_by_page() {
    let api = gateway();
    let call = api.list_categories_call(&Pagination { page: 2, size: 2 });
    assert_eq!(call.method, HttpMethod::Get);
    assert_eq!(call.url, "http://localhost:8080/categories");
    assert!(call.body.is_none());
    let names: Vec<String> = call.query.iter().map(|f| f.name.clone()).collect();
    assert_eq!(names, vec![s("page"), s("size")]);

    let info = PageInfo { size: 2, number: 2, total_elements: 6, total_pages: 3 };
    let body = PageBody {
        content: Some(vec![category_fields("c-5", "INCOME"), category_fields("c-6", "EXPENSE")]),
        page: Some(info.to_wire()),
    };
    let page = list_categories_result(Ok(RawPageReply { status: 200, body: Ok(body) })).unwrap();
    assert_eq!(page.content.len(), 2);
    assert_eq!(page.content[0].id, "c-5");
    assert_eq!(page.content[1].id, "c-6");
    assert_eq!(page.content[1].category_type, "EXPENSE");
    assert_eq!(page.page, info);

    let empty = PageBody { content: Some(Vec::new()), page: Some(info.to_wire()) };
    let page = list_categories_result(Ok(RawPageReply { status: 200, body: Ok(empty) })).unwrap();
    assert!(page.content.is_empty());
}

#[test]
fn a_page_with_a_bad_part_fails() {
    let info = PageInfo { size: 2, number: 0, total_elements: 2, total_pages: 1 };
    let mut second = category_fields("c-2", "INCOME");
    second.remove(1);
    let mut third = category_fields("c-3", "INCOME");
    third.remove(2);
    let body = PageBody {
        content: Some(vec![category_fields("c-1", "INCOME"), second, third]),
        page: Some(info.to_wire()),
    };
    match list_categories_result(Ok(RawPageReply { status: 200, body: Ok(body) })) {
        Err(ApiError::Decode(message)) => assert_eq!(message, "missing field code"),
        other => panic!("{:?}", other.map(|p| p.page)),
    }
    let body = PageBody { content: None, page: Some(info.to_wire()) };
    match list_categories_result(Ok(RawPageReply { status: 200, body: Ok(body) })) {
        Err(ApiError::Decode(message)) => assert_eq!(message, "missing field content"),
        other => panic!("{:?}", other.map(|p| p.page)),
    }
    let body = PageBody { content: Some(Vec::new()), page: None };
    match list_categories_result(Ok(RawPageReply { status: 404, body: Ok(body) })) {
        Err(ApiError::Rejected(message)) => assert_eq!(message, "missing field page"),
        other => panic!("{:?}", other.map(|p| p.page)),
    }
    let body = PageBody { content: Some(vec![category_fields("c-1", "INCOME")]), page: Some(Vec::new()) };
    match list_categories_result(Ok(RawPageReply { status: 200, body: Ok(body) })) {
        Err(ApiError::Decode(message)) => assert_eq!(message, "missing field size"),
        other => panic!("{:?}", other.map(|p| p.page)),
    }
    match list_categories_result(Err(s("no route"))) {
        Err(ApiError::Transport(message)) => assert_eq!(message, "no route"),
        other => panic!("{:?}", other.map(|p| p.page)),
    }
}

#[test]
fn gateway_addresses_follow_the_base() {
    assert_eq!(LOGIN_TELEGRAM_PATH, "/users/login/telegram");
    assert_eq!(CREATE_CATEGORY_PATH, "/categories");
    let session = Session::new(s("1"), s("ann"), s("c"));
    let api = AccountingClientApiRequest::new(s("https://svc.example/api"), s("id"), s("pw"), session);
    assert_eq!(api.login_telegram_url(), "https://svc.example/api/users/login/telegram");
    assert_eq!(api.create_category_url(), "https://svc.example/api/categories");
    assert_eq!(api.user_session().username, "ann");
    assert_eq!(api.base_url(), "https://svc.example/api");
    let empty = AccountingClientApiRequest::new(s(""), s("id"), s("pw"), Session::new(s("1"), s("a"), s("c")));
    assert_eq!(empty.login_telegram_url(), "/users/login/telegram");
}

#[test]
fn amount_survives_the_wire() {
    let twelve_fifty = Amount::new(1250, 2).unwrap();
    let summary = CategoryExpenseSummaryDto { category_code: s("food"), total_amount: twelve_fifty };
    let fields = summary.to_wire();
    assert_eq!(fields.len(), 2);
    assert_eq!(text_of(&fields[0]), (s("categoryCode"), s("food")));
    assert_eq!(fields[1].name, "totalAmount");
    match &fields[1].value {
        WireValue::Number(n) => {
            assert_eq!(n.mantissa, 1250);
            assert_eq!(n.scale, 2);
        }
        other => panic!("{:?}", other),
    }
    let back = CategoryExpenseSummaryDto::from_wire(&fields).unwrap();
    assert_eq!(back.category_code, "food");
    assert_eq!(back.total_amount, Amount { mantissa: 1250, scale: 2 });
}

#[test]
fn amount_as_text_is_refused() {
    let fields = vec![text_field_of("categoryCode", "food"), text_field_of("totalAmount", "12.50")];
    match CategoryExpenseSummaryDto::from_wire(&fields) {
        Err(WireError::Mismatch(name)) => assert_eq!(name, "totalAmount"),
        other => panic!("{:?}", other.map(|d| d.category_code)),
    }
    let beyond = vec![
        text_field_of("categoryCode", "food"),
        WireField { name: s("totalAmount"), value: WireValue::Number(Amount { mantissa: 1, scale: 29 }) },
    ];
    match CategoryExpenseSummaryDto::from_wire(&beyond) {
        Err(WireError::Mismatch(name)) => assert_eq!(name, "totalAmount"),
        other => panic!("{:?}", other.map(|d| d.category_code)),
    }
}

#[test]
fn amount_limits() {
    assert_eq!(Amount::new(1250, 2), Some(Amount { mantissa: 1250, scale: 2 }));
    assert_eq!(Amount::new(0, 28), Some(Amount { mantissa: 0, scale: 28 }));
    assert_eq!(Amount::new(0, 29), None);
    let bound: i128 = 79228162514264337593543950336;
    assert_eq!(Amount::new(bound, 0), None);
    assert_eq!(Amount::new(-bound, 0), None);
    assert!(Amount::new(bound - 1, 0).is_some());
    assert!(Amount::new(1 - bound, 28).is_some());
    assert_eq!(Amount::from_integer(-7), Amount { mantissa: -7, scale: 0 });
    assert_eq!(Amount { mantissa: 5, scale: 0 }.to_integer(), Some(5));
    assert_eq!(Amount { mantissa: 50, scale: 1 }.to_integer(), None);
    assert_eq!(Amount { mantissa: 9_223_372_036_854_775_807, scale: 0 }.to_integer(), Some(i64::MAX));
    assert_eq!(Amount { mantissa: 9_223_372_036_854_775_808, scale: 0 }.to_integer(), None);
}

#[test]
fn monthly_query_leaves_out_what_is_not_given() {
    let all = MonthlyTransactionQuery {
        year: Some(2024),
        month: Some(3),
        pagination: Pagination { page: 1, size: 20 },
    };
    let names: Vec<String> = all.to_query().iter().map(|f| f.name.clone()).collect();
    assert_eq!(names, vec![s("year"), s("month"), s("page"), s("size")]);
    let q = all.to_query();
    assert!(matches!(q[0].value, WireValue::Number(Amount { mantissa: 2024, scale: 0 })));
    assert!(matches!(q[1].value, WireValue::Number(Amount { mantissa: 3, scale: 0 })));
    let none = MonthlyTransactionQuery { year: None, month: None, pagination: Pagination::default() };
    let names: Vec<String> = none.to_query().iter().map(|f| f.name.clone()).collect();
    assert_eq!(names, vec![s("page"), s("size")]);
    let month_only = MonthlyTransactionQuery { year: None, month: Some(12), pagination: Pagination::default() };
    let names: Vec<String> = month_only.to_query().iter().map(|f| f.name.clone()).collect();
    assert_eq!(names, vec![s("month"), s("page"), s("size")]);
}

#[test]
fn items_are_read_in_their_order() {
    let items = vec![category_fields("a", "INCOME"), category_fields("b", "EXPENSE")];
    let read: Vec<CategoryDto> = items_from_wire(&items).unwrap();
    assert_eq!(read.len(), 2);
    assert_eq!(read[0].id, "a");
    assert_eq!(read[1].id, "b");
    let none: Vec<CategoryDto> = items_from_wire(&Vec::new()).unwrap();
    assert!(none.is_empty());
    let mut bad = category_fields("c", "INCOME");
    bad[0].value = WireValue::Null;
    let items = vec![category_fields("a", "INCOME"), bad, Vec::new()];
    match items_from_wire::<CategoryDto>(&items) {
        Err(WireError::Mismatch(name)) => assert_eq!(name, "id"),
        other => panic!("{:?}", other),
    }
}

#[test]
fn sum_of_expenses_is_read_from_the_reply() {
    let body = vec![
        text_field_of("categoryCode", "food"),
        WireField { name: s("totalAmount"), value: WireValue::Number(Amount { mantissa: 1250, scale: 2 }) },
    ];
    let sum = sum_today_expenses_grouped_by_category_result(Ok(RawReply { status: 200, body: Ok(body) })).unwrap();
    assert_eq!(sum.category_code, "food");
    assert_eq!(sum.total_amount, Amount { mantissa: 1250, scale: 2 });
    let body = vec![text_field_of("category_code", "food")];
    match sum_today_expenses_grouped_by_category_result(Ok(RawReply { status: 200, body: Ok(body) })) {
        Err(ApiError::Decode(message)) => assert_eq!(message, "missing field categoryCode"),
        other => panic!("{:?}", other),
    }
}
