//! Encoding gateway requests.
//!
//! Every operation travels as a JSON "header" (the operation name and the
//! caller's credentials) and, for some operations, a JSON "content", both
//! percent-encoded into named query parameters on a POST. Field spellings
//! are the gateway's own and are fixed by the spec functions here; they are
//! wire compatibility, not style.

use vstd::prelude::*;
use vstd::utf8::encode_utf8;

use crate::json::{append_json_quoted, json_str};
use crate::models::{
    AddBeneficiaryBody, BalanceRecord, BeneficiaryEnum, ChartBody, CustomerRequest,
    HistoricalMonthlyBalanceBody, OnBoardCustomerData, RequestOTP, TransferBody,
};

verus! {

/// A byte the URL form keeps as itself.
pub open spec fn is_url_unreserved(b: u8) -> bool {
    (48 <= b && b <= 57)  // 0-9
     || (65 <= b && b <= 90)  // A-Z
     || (97 <= b && b <= 122)  // a-z
     || b == 45 || b == 46 || b == 95 || b == 126  // - . _ ~
}

/// Uppercase hexadecimal digit.
pub open spec fn hex_upper(d: nat) -> char {
    if d < 10 {
        (d + '0' as nat) as char
    } else {
        ((d - 10) + 'A' as nat) as char
    }
}

/// The URL form of one byte: itself, or `%` and two uppercase hex digits.
pub open spec fn pct_byte(b: u8) -> Seq<char> {
    if is_url_unreserved(b) {
        seq![b as char]
    } else {
        seq!['%', hex_upper(b as nat / 16), hex_upper(b as nat % 16)]
    }
}

/// The URL form of a byte string.
pub open spec fn pct_encoded(data: Seq<u8>) -> Seq<char>
    decreases data.len(),
{
    if data.len() == 0 {
        Seq::empty()
    } else {
        pct_encoded(data.drop_last()) + pct_byte(data.last())
    }
}

/// The URL form of a character string: its UTF-8 bytes, percent-encoded.
pub open spec fn pct_of(s: Seq<char>) -> Seq<char> {
    pct_encoded(encode_utf8(s))
}

/// Relies on `urlencoding::encode`: percent-encodes every UTF-8 byte except
/// ASCII alphanumerics and `-`, `.`, `_`, `~`, with uppercase hex digits.
#[verifier::external_body]
pub fn percent_encode(data: &str) -> (r: String)
    ensures
        r@ == pct_of(data@),
{
    urlencoding::encode(data).into_owned()
}

fn append_field(out: &mut String, prefix: &str, value: &str)
    ensures
        final(out)@ == old(out)@ + prefix@ + json_str(value@),
{
    out.append(prefix);
    append_json_quoted(out, value);
    proof {
        assert(out@ =~= old(out)@ + prefix@ + json_str(value@));
    }
}

/// The header document of an authenticated operation.
pub open spec fn json_of_customer_request(c: CustomerRequest) -> Seq<char> {
    "{\"serviceName\":"@ + json_str(c.service_name@) + ",\"userID\":"@ + json_str(c.user_id@)
        + ",\"PIN\":"@ + json_str(c.pin@) + ",\"OTP\":"@ + json_str(c.otp@) + "}"@
}

pub fn customer_request_json(c: &CustomerRequest) -> (r: String)
    ensures
        r@ == json_of_customer_request(*c),
{
    let mut out = String::new();
    append_field(&mut out, "{\"serviceName\":", c.service_name.as_str());
    append_field(&mut out, ",\"userID\":", c.user_id.as_str());
    append_field(&mut out, ",\"PIN\":", c.pin.as_str());
    append_field(&mut out, ",\"OTP\":", c.otp.as_str());
    out.append("}");
    proof {
        assert(out@ =~= json_of_customer_request(*c));
    }
    out
}

/// The header document of the OTP request.
pub open spec fn json_of_request_otp(b: RequestOTP) -> Seq<char> {
    "{\"serviceName\":"@ + json_str(b.service_name@) + ",\"userID\":"@ + json_str(b.user_id@)
        + ",\"PIN\":"@ + json_str(b.pin@) + "}"@
}

pub fn request_otp_json(b: &RequestOTP) -> (r: String)
    ensures
        r@ == json_of_request_otp(*b),
{
    let mut out = String::new();
    append_field(&mut out, "{\"serviceName\":", b.service_name.as_str());
    append_field(&mut out, ",\"userID\":", b.user_id.as_str());
    append_field(&mut out, ",\"PIN\":", b.pin.as_str());
    out.append("}");
    proof {
        assert(out@ =~= json_of_request_otp(*b));
    }
    out
}

/// The content document of the add-beneficiary operation.
pub open spec fn json_of_add_beneficiary(b: AddBeneficiaryBody) -> Seq<char> {
    "{\"AccountID\":"@ + json_str(b.account_id@) + ",\"Description\":"@ + json_str(b.description@)
        + "}"@
}

pub fn add_beneficiary_json(b: &AddBeneficiaryBody) -> (r: String)
    ensures
        r@ == json_of_add_beneficiary(*b),
{
    let mut out = String::new();
    append_field(&mut out, "{\"AccountID\":", b.account_id.as_str());
    append_field(&mut out, ",\"Description\":", b.description.as_str());
    out.append("}");
    proof {
        assert(out@ =~= json_of_add_beneficiary(*b));
    }
    out
}

/// The content document of the transfer operation.
pub open spec fn json_of_transfer(t: TransferBody) -> Seq<char> {
    "{\"accountFrom\":"@ + json_str(t.account_from@) + ",\"accountTo\":"@ + json_str(
        t.account_to@,
    ) + ",\"transactionAmount\":"@ + json_str(t.transaction_amount@)
        + ",\"transactionReferenceNumber\":"@ + json_str(t.transaction_reference_number@)
        + ",\"narrative\":"@ + json_str(t.narrative@) + "}"@
}

pub fn transfer_json(t: &TransferBody) -> (r: String)
    ensures
        r@ == json_of_transfer(*t),
{
    let mut out = String::new();
    append_field(&mut out, "{\"accountFrom\":", t.account_from.as_str());
    append_field(&mut out, ",\"accountTo\":", t.account_to.as_str());
    append_field(&mut out, ",\"transactionAmount\":", t.transaction_amount.as_str());
    append_field(
        &mut out,
        ",\"transactionReferenceNumber\":",
        t.transaction_reference_number.as_str(),
    );
    append_field(&mut out, ",\"narrative\":", t.narrative.as_str());
    out.append("}");
    proof {
        assert(out@ =~= json_of_transfer(*t));
    }
    out
}

/// The content document of the monthly-balance-trend operation.
pub open spec fn json_of_monthly_balance(b: HistoricalMonthlyBalanceBody) -> Seq<char> {
    "{\"accountID\":"@ + json_str(b.account_id@) + ",\"numMonths\":"@ + json_str(b.num_months@)
        + "}"@
}

pub fn monthly_balance_json(b: &HistoricalMonthlyBalanceBody) -> (r: String)
    ensures
        r@ == json_of_monthly_balance(*b),
{
    let mut out = String::new();
    append_field(&mut out, "{\"accountID\":", b.account_id.as_str());
    append_field(&mut out, ",\"numMonths\":", b.num_months.as_str());
    out.append("}");
    proof {
        assert(out@ =~= json_of_monthly_balance(*b));
    }
    out
}

/// The content document of the onboard-customer operation.
pub open spec fn json_of_onboard(d: OnBoardCustomerData) -> Seq<char> {
    "{\"serviceName\":"@ + json_str(d.service_name@) + ",\"IC_number\":"@ + json_str(d.ic_number@)
        + ",\"familyName\":"@ + json_str(d.family_name@) + ",\"givenName\":"@ + json_str(
        d.given_name@,
    ) + ",\"dateOfBirth\":"@ + json_str(d.date_of_birth@) + ",\"gender\":"@ + json_str(d.gender@)
        + ",\"occupation\":"@ + json_str(d.occupation@) + ",\"streetAddress\":"@ + json_str(
        d.street_address@,
    ) + ",\"city\":"@ + json_str(d.city@) + ",\"state\":"@ + json_str(d.state@) + ",\"country\":"@
        + json_str(d.country@) + ",\"postalCode\":"@ + json_str(d.postal_code@)
        + ",\"countryCode\":"@ + json_str(d.country_code@) + ",\"mobileNumber\":"@ + json_str(
        d.mobile_number@,
    ) + ",\"preferredUserID\":"@ + json_str(d.preferred_user_id@) + ",\"currency\":"@ + json_str(
        d.currency@,
    ) + ",\"bankID\":"@ + json_str(d.bank_id@) + "}"@
}

pub fn onboard_json(d: &OnBoardCustomerData) -> (r: String)
    ensures
        r@ == json_of_onboard(*d),
{
    let mut out = String::new();
    append_field(&mut out, "{\"serviceName\":", d.service_name.as_str());
    append_field(&mut out, ",\"IC_number\":", d.ic_number.as_str());
    append_field(&mut out, ",\"familyName\":", d.family_name.as_str());
    append_field(&mut out, ",\"givenName\":", d.given_name.as_str());
    append_field(&mut out, ",\"dateOfBirth\":", d.date_of_birth.as_str());
    append_field(&mut out, ",\"gender\":", d.gender.as_str());
    append_field(&mut out, ",\"occupation\":", d.occupation.as_str());
    append_field(&mut out, ",\"streetAddress\":", d.street_address.as_str());
    append_field(&mut out, ",\"city\":", d.city.as_str());
    append_field(&mut out, ",\"state\":", d.state.as_str());
    append_field(&mut out, ",\"country\":", d.country.as_str());
    append_field(&mut out, ",\"postalCode\":", d.postal_code.as_str());
    append_field(&mut out, ",\"countryCode\":", d.country_code.as_str());
    append_field(&mut out, ",\"mobileNumber\":", d.mobile_number.as_str());
    append_field(&mut out, ",\"preferredUserID\":", d.preferred_user_id.as_str());
    append_field(&mut out, ",\"currency\":", d.currency.as_str());
    append_field(&mut out, ",\"bankID\":", d.bank_id.as_str());
    out.append("}");
    proof {
        assert(out@ =~= json_of_onboard(*d));
    }
    out
}

/// One record of the balance trend.
pub open spec fn json_of_balance_record(r: BalanceRecord) -> Seq<char> {
    "{\"Year_Month\":"@ + json_str(r.year_month@) + ",\"Balance\":"@ + json_str(r.balance@) + "}"@
}

fn balance_record_append(out: &mut String, r: &BalanceRecord)
    ensures
        final(out)@ == old(out)@ + json_of_balance_record(*r),
{
    append_field(out, "{\"Year_Month\":", r.year_month.as_str());
    append_field(out, ",\"Balance\":", r.balance.as_str());
    out.append("}");
    proof {
        assert(out@ =~= old(out)@ + json_of_balance_record(*r));
    }
}

/// A comma-separated run of balance records.
pub open spec fn json_of_record_list(rs: Seq<BalanceRecord>) -> Seq<char>
    decreases rs.len(),
{
    if rs.len() == 0 {
        Seq::empty()
    } else if rs.len() == 1 {
        json_of_balance_record(rs[0])
    } else {
        json_of_record_list(rs.drop_last()) + ","@ + json_of_balance_record(rs.last())
    }
}

/// The document POSTed to the chart service.
pub open spec fn json_of_chart_body(c: ChartBody) -> Seq<char> {
    "{\"MonthEndBalance\":["@ + json_of_record_list(c.month_end_balance@) + "],\"CurrentMonth\":"@
        + json_of_balance_record(c.current_month) + "}"@
}

pub fn chart_body_json(c: &ChartBody) -> (r: String)
    ensures
        r@ == json_of_chart_body(*c),
{
    let mut out = String::from_str("{\"MonthEndBalance\":[");
    let n = c.month_end_balance.len();
    let mut i: usize = 0;
    while i < n
        invariant
            n == c.month_end_balance@.len(),
            i <= n,
            out@ == "{\"MonthEndBalance\":["@ + json_of_record_list(
                c.month_end_balance@.subrange(0, i as int),
            ),
        decreases n - i,
    {
        if i > 0 {
            out.append(",");
        }
        balance_record_append(&mut out, &c.month_end_balance[i]);
        proof {
            let rs = c.month_end_balance@;
            assert(rs.subrange(0, i + 1).drop_last() =~= rs.subrange(0, i as int));
            assert(rs.subrange(0, i + 1).last() == rs[i as int]);
            if i == 0 {
                assert(rs.subrange(0, 1)[0] == rs[0]);
            }
            assert(out@ =~= "{\"MonthEndBalance\":["@ + json_of_record_list(
                rs.subrange(0, i + 1),
            ));
        }
        i = i + 1;
    }
    proof {
        assert(c.month_end_balance@.subrange(0, n as int) =~= c.month_end_balance@);
    }
    out.append("],\"CurrentMonth\":");
    balance_record_append(&mut out, &c.current_month);
    out.append("}");
    proof {
        assert(out@ =~= json_of_chart_body(*c));
    }
    out
}

/// The fixed header of the onboard operation: it runs unauthenticated.
pub open spec fn onboard_header() -> Seq<char> {
    "{\"serviceName\":\"onboardCustomer\",\"userID\":\"\",\"PIN\":\"\",\"OTP\":\"\"}"@
}

/// The fixed content of account creation: a default savings product.
pub open spec fn create_account_content() -> Seq<char> {
    "{\"Content\":{\"productID\":\"101\",\"openingBalance\":\"0\",\"currency\":\"SGD\",\"isRestricted\":false,\"isServiceChargeWaived\":true,\"isMinor\":false,\"makeDefaultAccount\":false}}"@
}

/// The content of the beneficiary listing: which account group to list.
pub open spec fn beneficiary_group_content(g: BeneficiaryEnum) -> Seq<char> {
    "{\"Content\":{\"accountGroup\":"@ + json_str(
        match g {
            BeneficiaryEnum::OWN => "OWN"@,
            BeneficiaryEnum::OTHER => "OTHER"@,
        },
    ) + "}}"@
}

/// The query string of an operation that sends only its header.
pub open spec fn header_only_query(header_json: Seq<char>) -> Seq<char> {
    "Header="@ + pct_of(header_json) + "&ConsumerID=RIB"@
}

/// The query string of an operation that sends a header and a content.
pub open spec fn header_content_query(header_json: Seq<char>, content_json: Seq<char>) -> Seq<
    char,
> {
    "Header="@ + pct_of(header_json) + "&Content="@ + pct_of(content_json) + "&ConsumerID=RIB"@
}

fn build_header_only(header_json: &str) -> (r: String)
    ensures
        r@ == header_only_query(header_json@),
{
    let h = percent_encode(header_json);
    let mut out = String::from_str("Header=");
    out.append(h.as_str());
    out.append("&ConsumerID=RIB");
    proof {
        assert(out@ =~= header_only_query(header_json@));
    }
    out
}

fn build_header_content(header_json: &str, content_json: &str) -> (r: String)
    ensures
        r@ == header_content_query(header_json@, content_json@),
{
    let h = percent_encode(header_json);
    let c = percent_encode(content_json);
    let mut out = String::from_str("Header=");
    out.append(h.as_str());
    out.append("&Content=");
    out.append(c.as_str());
    out.append("&ConsumerID=RIB");
    proof {
        assert(out@ =~= header_content_query(header_json@, content_json@));
    }
    out
}

/// Query string of the request-OTP operation.
pub fn encode_request_otp(b: &RequestOTP) -> (r: String)
    ensures
        r@ == header_only_query(json_of_request_otp(*b)),
{
    let j = request_otp_json(b);
    build_header_only(j.as_str())
}

/// Query string of the login-with-OTP operation.
pub fn encode_login_customer(c: &CustomerRequest) -> (r: String)
    ensures
        r@ == header_only_query(json_of_customer_request(*c)),
{
    let j = customer_request_json(c);
    build_header_only(j.as_str())
}

/// Query string of the accounts listing.
pub fn encode_get_customer_accounts(c: &CustomerRequest) -> (r: String)
    ensures
        r@ == header_only_query(json_of_customer_request(*c)),
{
    let j = customer_request_json(c);
    build_header_only(j.as_str())
}

/// Query string of the customer-details operation.
pub fn encode_get_customer_details(c: &CustomerRequest) -> (r: String)
    ensures
        r@ == header_only_query(json_of_customer_request(*c)),
{
    let j = customer_request_json(c);
    build_header_only(j.as_str())
}

/// Query string of the beneficiary listing.
pub fn encode_get_beneficiaries(c: &CustomerRequest, group: &BeneficiaryEnum) -> (r: String)
    ensures
        r@ == header_content_query(json_of_customer_request(*c), beneficiary_group_content(*group)),
{
    let j = customer_request_json(c);
    let mut content = String::from_str("{\"Content\":{\"accountGroup\":");
    let name = group.to_string();
    append_json_quoted(&mut content, name.as_str());
    content.append("}}");
    proof {
        assert(content@ =~= beneficiary_group_content(*group));
    }
    build_header_content(j.as_str(), content.as_str())
}

/// Query string of the add-beneficiary operation.
pub fn encode_add_beneficiary(c: &CustomerRequest, b: &AddBeneficiaryBody) -> (r: String)
    ensures
        r@ == header_content_query(json_of_customer_request(*c), json_of_add_beneficiary(*b)),
{
    let j = customer_request_json(c);
    let content = add_beneficiary_json(b);
    build_header_content(j.as_str(), content.as_str())
}

/// Query string of the transfer operation.
pub fn encode_transfer(c: &CustomerRequest, t: &TransferBody) -> (r: String)
    ensures
        r@ == header_content_query(json_of_customer_request(*c), json_of_transfer(*t)),
{
    let j = customer_request_json(c);
    let content = transfer_json(t);
    build_header_content(j.as_str(), content.as_str())
}

/// Query string of account creation; it runs with the Teller consumer.
pub fn encode_create_account(c: &CustomerRequest) -> (r: String)
    ensures
        r@ == "Header="@ + pct_of(json_of_customer_request(*c)) + "&Content="@ + pct_of(
            create_account_content(),
        ) + "&ConsumerID=Teller"@,
{
    let j = customer_request_json(c);
    let h = percent_encode(j.as_str());
    let fixed = String::from_str(
        "{\"Content\":{\"productID\":\"101\",\"openingBalance\":\"0\",\"currency\":\"SGD\",\"isRestricted\":false,\"isServiceChargeWaived\":true,\"isMinor\":false,\"makeDefaultAccount\":false}}",
    );
    let ce = percent_encode(fixed.as_str());
    let mut out = String::from_str("Header=");
    out.append(h.as_str());
    out.append("&Content=");
    out.append(ce.as_str());
    out.append("&ConsumerID=Teller");
    proof {
        assert(out@ =~= "Header="@ + pct_of(json_of_customer_request(*c)) + "&Content="@ + pct_of(
            create_account_content(),
        ) + "&ConsumerID=Teller"@);
    }
    out
}

/// Query string of the monthly-balance-trend operation.
pub fn encode_monthly_balance_trend(
    c: &CustomerRequest,
    b: &HistoricalMonthlyBalanceBody,
) -> (r: String)
    ensures
        r@ == header_content_query(json_of_customer_request(*c), json_of_monthly_balance(*b)),
{
    let j = customer_request_json(c);
    let content = monthly_balance_json(b);
    build_header_content(j.as_str(), content.as_str())
}

/// Query string of the onboard-customer operation: a fixed anonymous header
/// and the new customer's details as content.
pub fn encode_onboard_customer(d: &OnBoardCustomerData) -> (r: String)
    ensures
        r@ == "Header="@ + pct_of(onboard_header()) + "&Content="@ + pct_of(json_of_onboard(*d)),
{
    let fixed = String::from_str(
        "{\"serviceName\":\"onboardCustomer\",\"userID\":\"\",\"PIN\":\"\",\"OTP\":\"\"}",
    );
    let h = percent_encode(fixed.as_str());
    let content = onboard_json(d);
    let ce = percent_encode(content.as_str());
    let mut out = String::from_str("Header=");
    out.append(h.as_str());
    out.append("&Content=");
    out.append(ce.as_str());
    proof {
        assert(out@ =~= "Header="@ + pct_of(onboard_header()) + "&Content="@ + pct_of(
            json_of_onboard(*d),
        ));
    }
    out
}

} // verus!
