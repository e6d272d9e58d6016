use tbank_bot::decode::{
    decode_customer_accounts, decode_beneficiaries, decode_invocation_response,
    decode_accounts_envelope, decode_beneficiary_list, decode_customer_details,
    decode_login_envelope, decode_login_response, decode_otp_envelope,
    decode_monthly_balance_trend, decode_onboard_reply, decode_otp_response,
    extract_balance_snapshot, extract_certificate_no, extract_created_account_id, GatewayError,
    is_invocation_successful, is_login_status_success, is_otp_status_success,
};
use tbank_bot::encode::{
    chart_body_json, encode_add_beneficiary, encode_get_beneficiaries, encode_request_otp,
    encode_transfer, percent_encode,
};
use tbank_bot::json::{append_json_quoted, Json};
use tbank_bot::models::{
    AddBeneficiaryBody, BalanceRecord, BeneficiaryEnum, ChartBody, CustomerRequest, RequestOTP,
    TransferBody,
};

fn obj(fields: Vec<(&str, Json)>) -> Json {
    Json::Obj(fields.into_iter().map(|(k, v)| (k.to_string(), v)).collect())
}

fn s(v: &str) -> Json {
    Json::Str(v.to_string())
}

fn envelope(service_response: Json) -> Json {
    obj(vec![("Content", obj(vec![("ServiceResponse", service_response)]))])
}

fn account(id: &str, balance: &str, product: &str) -> Json {
    obj(vec![
        ("interestRate", s("0.5")),
        ("accountID", s(id)),
        ("parentAccountFlag", s("N")),
        ("balance", s(balance)),
        ("productID", s(product)),
        ("currentStatus", s("ACTIVE")),
        ("currency", s("SGD")),
        ("homeBranch", s("001")),
        ("accountOpenDate", s("2020-01-01")),
        (
            "maintenancehistory",
            obj(vec![
                ("lastTransactionBranch", s("001")),
                ("lastMaintenanceOfficer", s("OFF1")),
            ]),
        ),
        ("officerID", s("OFF1")),
    ])
}

fn accounts_reply(node: Json) -> Json {
    envelope(obj(vec![("AccountList", obj(vec![("account", node)]))]))
}

#[test]
fn accounts_single_object_yields_one_element() {
    let reply = accounts_reply(account("ACC01", "500.00", "101"));
    let got = decode_customer_accounts(&reply).expect("decodes");
    assert_eq!(got.len(), 1);
    assert_eq!(got[0].account_id, "ACC01");
    assert_eq!(got[0].balance, "500.00");
}

#[test]
fn accounts_array_yields_n_elements() {
    let reply = accounts_reply(Json::Arr(vec![
        account("ACC01", "500.00", "101"),
        account("ACC02", "9.99", "102"),
        account("ACC03", "0.00", "101"),
    ]));
    let got = decode_customer_accounts(&reply).expect("decodes");
    assert_eq!(got.len(), 3);
    assert_eq!(got[1].account_id, "ACC02");
}

#[test]
fn accounts_neither_shape_is_a_decode_error() {
    let reply = accounts_reply(s("not an account"));
    assert_eq!(decode_customer_accounts(&reply).unwrap_err(), GatewayError::Decode);
    let missing = envelope(obj(vec![]));
    assert_eq!(decode_customer_accounts(&missing).unwrap_err(), GatewayError::Decode);
    // an array with one malformed element does not decode either
    let broken = accounts_reply(Json::Arr(vec![account("A", "1.00", "101"), s("junk")]));
    assert_eq!(decode_customer_accounts(&broken).unwrap_err(), GatewayError::Decode);
}

fn beneficiary(id: &str, desc: &str) -> Json {
    obj(vec![
        ("AccountID", s(id)),
        ("Description", s(desc)),
        ("Currency", s("SGD")),
        ("BeneficiaryID", s("B1")),
    ])
}

#[test]
fn beneficiaries_single_and_array() {
    let single = envelope(obj(vec![(
        "BeneficiaryList",
        obj(vec![("Beneficiary", beneficiary("ACC99", "Savings"))]),
    )]));
    let got = decode_beneficiaries(&single).expect("decodes");
    assert_eq!(got.len(), 1);
    assert_eq!(got[0].description, "Savings");

    let many = envelope(obj(vec![(
        "BeneficiaryList",
        obj(vec![(
            "Beneficiary",
            Json::Arr(vec![beneficiary("ACC99", "Savings"), beneficiary("ACC98", "Rent")]),
        )]),
    )]));
    let got = decode_beneficiaries(&many).expect("decodes");
    assert_eq!(got.len(), 2);

    let bad = envelope(obj(vec![("BeneficiaryList", obj(vec![("Beneficiary", Json::Null)]))]));
    assert_eq!(decode_beneficiaries(&bad).unwrap_err(), GatewayError::Decode);
}

fn header_reply(field: &str, value: Option<&str>) -> Json {
    let mut fields = vec![];
    if let Some(v) = value {
        fields.push((field, s(v)));
    }
    envelope(obj(vec![("ServiceRespHeader", obj(fields))]))
}

#[test]
fn business_success_detection() {
    // the substring rule of transfer-like operations
    assert!(is_invocation_successful(&Some("invocation successful, ref=123".to_string())));
    assert!(!is_invocation_successful(&Some("invocation failed".to_string())));
    assert!(!is_invocation_successful(&Some("".to_string())));
    assert!(!is_invocation_successful(&None));

    let ok = header_reply("ErrorText", Some("invocation successful, ref=123"));
    assert!(decode_invocation_response(&ok).is_ok());
    let failed = header_reply("ErrorText", Some("invocation failed"));
    assert_eq!(decode_invocation_response(&failed).unwrap_err(), GatewayError::Business);
    let absent = header_reply("ErrorText", None);
    assert_eq!(decode_invocation_response(&absent).unwrap_err(), GatewayError::Business);
    let no_header = envelope(obj(vec![]));
    assert_eq!(decode_invocation_response(&no_header).unwrap_err(), GatewayError::Decode);
}

#[test]
fn otp_and_login_literals_are_case_sensitive() {
    assert!(is_otp_status_success(&Some("success".to_string())));
    assert!(!is_otp_status_success(&Some("Success".to_string())));
    assert!(is_login_status_success(&Some("Success".to_string())));
    assert!(!is_login_status_success(&Some("success".to_string())));

    assert!(decode_otp_response(&header_reply("ErrorDetails", Some("success"))).is_ok());
    assert_eq!(
        decode_otp_response(&header_reply("ErrorDetails", Some("Success"))).unwrap_err(),
        GatewayError::Business
    );
    assert!(decode_login_response(&header_reply("ErrorDetails", Some("Success"))).is_ok());
    assert_eq!(
        decode_login_response(&header_reply("ErrorDetails", Some("success"))).unwrap_err(),
        GatewayError::Business
    );
}

#[test]
fn nested_extraction() {
    let created = envelope(obj(vec![(
        "accountID",
        obj(vec![("_content_", s("ACC77"))]),
    )]));
    assert_eq!(extract_created_account_id(&created), Some("ACC77".to_string()));
    let no_id = envelope(obj(vec![("accountID", Json::Null)]));
    assert_eq!(extract_created_account_id(&no_id), None);

    let snap = envelope(obj(vec![
        ("BalanceBefore", s("100.00")),
        ("BalanceAfter", s("90.00")),
    ]));
    assert_eq!(
        extract_balance_snapshot(&snap),
        Some(("100.00".to_string(), "90.00".to_string()))
    );

    let details = envelope(obj(vec![(
        "CDMCustomer",
        obj(vec![("certificate", obj(vec![("certificateNo", s("S123"))]))]),
    )]));
    assert_eq!(extract_certificate_no(&details), Some("S123".to_string()));
}

#[test]
fn trend_decodes_and_reencodes() {
    let trend = envelope(obj(vec![(
        "TrendData",
        obj(vec![
            (
                "MonthEndBalance",
                Json::Arr(vec![obj(vec![("Year_Month", s("2024-01")), ("Balance", s("10.00"))])]),
            ),
            ("CurrentMonth", obj(vec![("Year_Month", s("2024-02")), ("Balance", s("12.00"))])),
        ]),
    )]));
    let chart = decode_monthly_balance_trend(&trend).expect("decodes");
    assert_eq!(chart.month_end_balance.len(), 1);
    assert_eq!(chart.current_month.balance, "12.00");
    let body = chart_body_json(&chart);
    assert_eq!(
        body,
        "{\"MonthEndBalance\":[{\"Year_Month\":\"2024-01\",\"Balance\":\"10.00\"}],\"CurrentMonth\":{\"Year_Month\":\"2024-02\",\"Balance\":\"12.00\"}}"
    );
    let empty = ChartBody {
        month_end_balance: vec![],
        current_month: BalanceRecord { year_month: "2024-02".to_string(), balance: "0.00".to_string() },
    };
    assert_eq!(
        chart_body_json(&empty),
        "{\"MonthEndBalance\":[],\"CurrentMonth\":{\"Year_Month\":\"2024-02\",\"Balance\":\"0.00\"}}"
    );
}

#[test]
fn json_string_escaping() {
    let mut out = String::new();
    append_json_quoted(&mut out, "a\"b\\c\nd");
    assert_eq!(out, "\"a\\\"b\\\\c\\nd\"");
}

#[test]
fn percent_encoding_is_not_identity() {
    assert_eq!(percent_encode("abc123-._~"), "abc123-._~");
    assert_eq!(percent_encode("{\"a\":\"b c\"}"), "%7B%22a%22%3A%22b%20c%22%7D");
}

#[test]
fn request_otp_query_string() {
    let body = RequestOTP {
        service_name: "requestOTP".to_string(),
        user_id: "alice".to_string(),
        pin: "1234".to_string(),
    };
    let q = encode_request_otp(&body);
    assert_eq!(
        q,
        "Header=%7B%22serviceName%22%3A%22requestOTP%22%2C%22userID%22%3A%22alice%22%2C%22PIN%22%3A%221234%22%7D&ConsumerID=RIB"
    );
}

#[test]
fn transfer_query_carries_content() {
    let header = CustomerRequest {
        service_name: "creditTransfer".to_string(),
        user_id: "alice".to_string(),
        pin: "1234".to_string(),
        otp: "999999".to_string(),
    };
    let body = TransferBody {
        account_from: "ACC01".to_string(),
        account_to: "ACC99".to_string(),
        transaction_amount: "100.00".to_string(),
        transaction_reference_number: "42".to_string(),
        narrative: "Simple Transfer".to_string(),
    };
    let q = encode_transfer(&header, &body);
    assert!(q.starts_with("Header=%7B%22serviceName%22%3A%22creditTransfer%22"));
    assert!(q.contains("&Content=%7B%22accountFrom%22%3A%22ACC01%22%2C%22accountTo%22%3A%22ACC99%22"));
    assert!(q.contains("%22transactionAmount%22%3A%22100.00%22"));
    assert!(q.contains("%22narrative%22%3A%22Simple%20Transfer%22%7D"));
    assert!(q.ends_with("&ConsumerID=RIB"));
}

#[test]
fn beneficiary_queries() {
    let header = CustomerRequest {
        service_name: "getBeneficiaryList".to_string(),
        user_id: "alice".to_string(),
        pin: "1234".to_string(),
        otp: "999999".to_string(),
    };
    let q = encode_get_beneficiaries(&header, &BeneficiaryEnum::OTHER);
    assert!(q.contains("&Content=%7B%22Content%22%3A%7B%22accountGroup%22%3A%22OTHER%22%7D%7D"));
    assert_eq!(BeneficiaryEnum::OWN.to_string(), "OWN");
    assert_eq!(BeneficiaryEnum::OTHER.to_string(), "OTHER");

    let add = AddBeneficiaryBody { account_id: "ACC99".to_string(), description: "Rent".to_string() };
    let header2 = CustomerRequest {
        service_name: "addBeneficiary".to_string(),
        user_id: "alice".to_string(),
        pin: "1234".to_string(),
        otp: "999999".to_string(),
    };
    let q2 = encode_add_beneficiary(&header2, &add);
    assert!(q2.contains("&Content=%7B%22AccountID%22%3A%22ACC99%22%2C%22Description%22%3A%22Rent%22%7D"));
}

#[test]
fn customer_details_decode() {
    let cdm = obj(vec![
        ("familyName", s("Tan")),
        ("givenName", s("Alice")),
        ("taxIdentifier", s("T123")),
        ("dateOfBirth", s("1990-01-01")),
        ("certificate", obj(vec![("certificateNo", s("S123"))])),
        ("customer", obj(vec![("customerID", s("C9"))])),
        ("address", obj(vec![("country", s("SG"))])),
    ]);
    let reply = envelope(obj(vec![
        ("CDMCustomer", cdm),
        ("ServiceRespHeader", obj(vec![("ErrorDetails", s("Success"))])),
    ]));
    let d = decode_customer_details(&reply).expect("decodes");
    assert_eq!(d.cdm_customer.family_name, "Tan");
    assert_eq!(d.cdm_customer.certificate.certificate_no, Some("S123".to_string()));
    assert_eq!(d.cdm_customer.customer.customer_id, Some("C9".to_string()));
    assert_eq!(d.cdm_customer.address.country, Some("SG".to_string()));
    assert_eq!(d.cdm_customer.address.city, None);
    assert_eq!(d.service_response_header.error_details, Some("Success".to_string()));

    // the identity strings are required
    let incomplete = envelope(obj(vec![(
        "CDMCustomer",
        obj(vec![("familyName", s("Tan"))]),
    )]));
    assert_eq!(decode_customer_details(&incomplete).unwrap_err(), GatewayError::Decode);
}

#[test]
fn onboard_reply_decode() {
    let reply = envelope(obj(vec![
        ("ServiceRespHeader", obj(vec![("ErrorText", s("created"))])),
        (
            "CustomerDetails",
            obj(vec![
                ("AccountID", s("ACC1")),
                ("PIN", s("123456")),
                ("CustomerID", s("C1")),
                ("branchID", s("B1")),
            ]),
        ),
    ]));
    let d = decode_onboard_reply(&reply).expect("decodes");
    assert_eq!(d.service_response_header.error_text, Some("created".to_string()));
    let cd = d.customer_details.expect("details present");
    assert_eq!(cd.account_id, "ACC1");
    assert_eq!(cd.branch_id, Some("B1".to_string()));

    let bare = envelope(obj(vec![("ServiceRespHeader", obj(vec![]))]));
    let d = decode_onboard_reply(&bare).expect("decodes");
    assert!(d.customer_details.is_none());
}

#[test]
fn login_envelope_decode() {
    let reply = envelope(obj(vec![
        ("ServiceRespHeader", obj(vec![("ErrorDetails", s("Success"))])),
        (
            "Login_OTP_Authenticate-Response",
            obj(vec![("CustomerID", s("C1")), ("BankID", s("B1"))]),
        ),
    ]));
    let env2 = decode_login_envelope(&reply).expect("decodes");
    let sr = env2.content.service_response;
    assert_eq!(sr.service_response_header.error_details, Some("Success".to_string()));
    assert_eq!(sr.login_otp_response.customer_id, Some("C1".to_string()));
    assert_eq!(sr.login_otp_response.bank_id, Some("B1".to_string()));
}

#[test]
fn envelope_assemblers() {
    let reply = accounts_reply(account("ACC01", "500.00", "101"));
    let env2 = decode_accounts_envelope(&reply).expect("decodes");
    assert_eq!(env2.content.service_response.account_list.account.len(), 1);

    let single = envelope(obj(vec![(
        "BeneficiaryList",
        obj(vec![("Beneficiary", beneficiary("ACC99", "Savings"))]),
    )]));
    let bl = decode_beneficiary_list(&single).expect("decodes");
    assert_eq!(bl.beneficiary_list.beneficiary.len(), 1);

    let otp = header_reply("ErrorDetails", Some("success"));
    let env3 = decode_otp_envelope(&otp).expect("decodes");
    assert_eq!(
        env3.content.service_response.service_response_header.error_details,
        Some("success".to_string())
    );
}
