//! Decoding gateway replies.
//!
//! The gateway signals business failure in free-form text fields, not in
//! status codes, and some list fields arrive as one object or as an array
//! depending on how many items exist. Decoding therefore (a) centralizes
//! the literal comparisons behind boolean classifiers, and (b) tries the
//! single-object shape first and the array shape second; only when both
//! fail is the reply a decode error.

use vstd::prelude::*;

use crate::json::{Json, spec_get};
use crate::models::{
    AccountData, Address, BalanceRecord, Beneficiary, Cellphone, Certificate, CdmCustomer,
    ChartBody, Customer, CustomerData, Error, GetCustomerDetails, Maintenacehistory,
    Maintenancehistory, Phone, Profile, ReplyLoginCustomer, ReplyOnboardCustomer,
};
use crate::text::{seq_contains, str_contains, str_eq};

verus! {

/// How a gateway call fails; every failure resyncs the conversation, the
/// kinds differ only in what gets logged.
#[derive(Clone, Copy, PartialEq, Eq, Structural, Debug)]
pub enum GatewayError {
    /// The transport could not complete the call.
    Network,
    /// The reply matched no attempted shape.
    Decode,
    /// The reply was well formed and reported a negative business result.
    Business,
}

/// The payload under `Content.ServiceResponse`, where every reply keeps its
/// substance.
pub open spec fn spec_service_response(j: Json) -> Option<Json> {
    match spec_get(j, "Content"@) {
        Some(c) => spec_get(c, "ServiceResponse"@),
        None => None,
    }
}

pub fn service_response<'a>(j: &'a Json) -> (r: Option<&'a Json>)
    ensures
        match r {
            Some(v) => spec_service_response(*j) == Some(*v),
            None => spec_service_response(*j) is None,
        },
{
    match j.get("Content") {
        Some(c) => c.get("ServiceResponse"),
        None => None,
    }
}

/// The status header under `Content.ServiceResponse.ServiceRespHeader`.
pub open spec fn spec_resp_header(j: Json) -> Option<Json> {
    match spec_service_response(j) {
        Some(sr) => spec_get(sr, "ServiceRespHeader"@),
        None => None,
    }
}

pub fn resp_header<'a>(j: &'a Json) -> (r: Option<&'a Json>)
    ensures
        match r {
            Some(v) => spec_resp_header(*j) == Some(*v),
            None => spec_resp_header(*j) is None,
        },
{
    match service_response(j) {
        Some(sr) => sr.get("ServiceRespHeader"),
        None => None,
    }
}

/// A string field of an object, when present and a string.
pub open spec fn spec_str_field(j: Json, key: Seq<char>) -> Option<String> {
    match spec_get(j, key) {
        Some(Json::Str(s)) => Some(s),
        _ => None,
    }
}

pub fn str_field(j: &Json, key: &str) -> (r: Option<String>)
    ensures
        r == spec_str_field(*j, key@),
{
    match j.get(key) {
        Some(v) => match v.as_str() {
            Some(s) => Some(s.clone()),
            None => None,
        },
        None => None,
    }
}

/// The status header read into its record; absent fields stay absent.
pub fn decode_error_header(h: &Json) -> (r: Error)
    ensures
        r.error_text == spec_str_field(*h, "ErrorText"@),
        r.error_details == spec_str_field(*h, "ErrorDetails"@),
        r.global_error_id == spec_str_field(*h, "GlobalErrorID"@),
{
    Error {
        error_text: str_field(h, "ErrorText"),
        error_details: str_field(h, "ErrorDetails"),
        global_error_id: str_field(h, "GlobalErrorID"),
    }
}

/// The OTP request reports success as the exact text `success`; anything
/// else, or no field at all, is failure.
pub open spec fn spec_otp_success(d: Option<String>) -> bool {
    match d {
        Some(s) => s@ == "success"@,
        None => false,
    }
}

pub fn is_otp_status_success(d: &Option<String>) -> (r: bool)
    ensures
        r == spec_otp_success(*d),
{
    match d {
        Some(s) => str_eq(s.as_str(), "success"),
        None => false,
    }
}

/// The login reports success as the exact text `Success` (capitalized,
/// unlike the OTP request); anything else, or no field, is failure.
pub open spec fn spec_login_success(d: Option<String>) -> bool {
    match d {
        Some(s) => s@ == "Success"@,
        None => false,
    }
}

pub fn is_login_status_success(d: &Option<String>) -> (r: bool)
    ensures
        r == spec_login_success(*d),
{
    match d {
        Some(s) => str_eq(s.as_str(), "Success"),
        None => false,
    }
}

/// Transfer-like operations report success as an opaque status sentence
/// that contains `invocation successful`; anything else, or no field, is
/// failure.
pub open spec fn spec_invocation_success(d: Option<String>) -> bool {
    match d {
        Some(s) => seq_contains(s@, "invocation successful"@),
        None => false,
    }
}

pub fn is_invocation_successful(d: &Option<String>) -> (r: bool)
    ensures
        r == spec_invocation_success(*d),
{
    match d {
        Some(s) => str_contains(s.as_str(), "invocation successful"),
        None => false,
    }
}

/// Outcome of the request-OTP reply: success exactly when the header is
/// present and says `success`; a missing header is a decode error, a
/// well-formed negative answer a business failure.
pub open spec fn spec_decode_otp(j: Json) -> Result<(), GatewayError> {
    match spec_resp_header(j) {
        Some(h) => if spec_otp_success(spec_str_field(h, "ErrorDetails"@)) {
            Ok(())
        } else {
            Err(GatewayError::Business)
        },
        None => Err(GatewayError::Decode),
    }
}

pub fn decode_otp_response(j: &Json) -> (r: Result<(), GatewayError>)
    ensures
        r == spec_decode_otp(*j),
{
    match resp_header(j) {
        Some(h) => {
            let d = str_field(h, "ErrorDetails");
            if is_otp_status_success(&d) {
                Ok(())
            } else {
                Err(GatewayError::Business)
            }
        },
        None => Err(GatewayError::Decode),
    }
}

/// Outcome of the login reply, under the capitalized literal.
pub open spec fn spec_decode_login(j: Json) -> Result<(), GatewayError> {
    match spec_resp_header(j) {
        Some(h) => if spec_login_success(spec_str_field(h, "ErrorDetails"@)) {
            Ok(())
        } else {
            Err(GatewayError::Business)
        },
        None => Err(GatewayError::Decode),
    }
}

pub fn decode_login_response(j: &Json) -> (r: Result<(), GatewayError>)
    ensures
        r == spec_decode_login(*j),
{
    match resp_header(j) {
        Some(h) => {
            let d = str_field(h, "ErrorDetails");
            if is_login_status_success(&d) {
                Ok(())
            } else {
                Err(GatewayError::Business)
            }
        },
        None => Err(GatewayError::Decode),
    }
}

/// The identity a successful login names, as far as it is present.
pub fn decode_login_identity(j: &Json) -> (r: Option<ReplyLoginCustomer>)
    ensures
        match r {
            Some(c) => {
                &&& spec_service_response(*j) matches Some(sr)
                &&& spec_get(sr, "Login_OTP_Authenticate-Response"@) matches Some(node)
                &&& c.customer_id == spec_str_field(node, "CustomerID"@)
                &&& c.bank_id == spec_str_field(node, "BankID"@)
            },
            None => {
                match spec_service_response(*j) {
                    Some(sr) => spec_get(sr, "Login_OTP_Authenticate-Response"@) is None,
                    None => true,
                }
            },
        },
{
    match service_response(j) {
        Some(sr) => match sr.get("Login_OTP_Authenticate-Response") {
            Some(node) => Some(
                ReplyLoginCustomer {
                    customer_id: str_field(node, "CustomerID"),
                    bank_id: str_field(node, "BankID"),
                },
            ),
            None => None,
        },
        None => None,
    }
}

/// Outcome of a transfer-like reply, under the substring rule.
pub open spec fn spec_decode_invocation(j: Json) -> Result<(), GatewayError> {
    match spec_resp_header(j) {
        Some(h) => if spec_invocation_success(spec_str_field(h, "ErrorText"@)) {
            Ok(())
        } else {
            Err(GatewayError::Business)
        },
        None => Err(GatewayError::Decode),
    }
}

pub fn decode_invocation_response(j: &Json) -> (r: Result<(), GatewayError>)
    ensures
        r == spec_decode_invocation(*j),
{
    match resp_header(j) {
        Some(h) => {
            let d = str_field(h, "ErrorText");
            if is_invocation_successful(&d) {
                Ok(())
            } else {
                Err(GatewayError::Business)
            }
        },
        None => Err(GatewayError::Decode),
    }
}

/// One account record; every field the listing promises must be present as
/// a string, or the record does not decode.
pub open spec fn spec_decode_maint(j: Json) -> Option<Maintenancehistory> {
    match (
        spec_str_field(j, "lastTransactionBranch"@),
        spec_str_field(j, "lastMaintenanceOfficer"@),
    ) {
        (Some(a), Some(b)) => Some(
            Maintenancehistory { last_transaction_branch: a, last_maintenance_officer: b },
        ),
        _ => None,
    }
}

pub open spec fn spec_decode_account(j: Json) -> Option<AccountData> {
    match (
        spec_str_field(j, "interestRate"@),
        spec_str_field(j, "accountID"@),
        spec_str_field(j, "parentAccountFlag"@),
        spec_str_field(j, "balance"@),
        spec_str_field(j, "productID"@),
        spec_str_field(j, "currentStatus"@),
        spec_str_field(j, "currency"@),
        spec_str_field(j, "homeBranch"@),
        spec_str_field(j, "accountOpenDate"@),
        spec_str_field(j, "officerID"@),
    ) {
        (
            Some(interest_rate),
            Some(account_id),
            Some(parent_account_flag),
            Some(balance),
            Some(product_id),
            Some(current_status),
            Some(currency),
            Some(home_branch),
            Some(account_open_date),
            Some(officer_id),
        ) => {
            match spec_get(j, "maintenancehistory"@) {
                Some(m) => match spec_decode_maint(m) {
                    Some(maintenancehistory) => Some(
                        AccountData {
                            interest_rate,
                            account_id,
                            parent_account_flag,
                            balance,
                            product_id,
                            current_status,
                            currency,
                            home_branch,
                            account_open_date,
                            maintenancehistory,
                            officer_id,
                        },
                    ),
                    None => None,
                },
                None => None,
            }
        },
        _ => None,
    }
}

pub fn decode_account(j: &Json) -> (r: Option<AccountData>)
    ensures
        r == spec_decode_account(*j),
{
    let interest_rate = match str_field(j, "interestRate") {
        Some(s) => s,
        None => {
            return None;
        },
    };
    let account_id = match str_field(j, "accountID") {
        Some(s) => s,
        None => {
            return None;
        },
    };
    let parent_account_flag = match str_field(j, "parentAccountFlag") {
        Some(s) => s,
        None => {
            return None;
        },
    };
    let balance = match str_field(j, "balance") {
        Some(s) => s,
        None => {
            return None;
        },
    };
    let product_id = match str_field(j, "productID") {
        Some(s) => s,
        None => {
            return None;
        },
    };
    let current_status = match str_field(j, "currentStatus") {
        Some(s) => s,
        None => {
            return None;
        },
    };
    let currency = match str_field(j, "currency") {
        Some(s) => s,
        None => {
            return None;
        },
    };
    let home_branch = match str_field(j, "homeBranch") {
        Some(s) => s,
        None => {
            return None;
        },
    };
    let account_open_date = match str_field(j, "accountOpenDate") {
        Some(s) => s,
        None => {
            return None;
        },
    };
    let officer_id = match str_field(j, "officerID") {
        Some(s) => s,
        None => {
            return None;
        },
    };
    let m = match j.get("maintenancehistory") {
        Some(m) => m,
        None => {
            return None;
        },
    };
    let last_transaction_branch = match str_field(m, "lastTransactionBranch") {
        Some(s) => s,
        None => {
            return None;
        },
    };
    let last_maintenance_officer = match str_field(m, "lastMaintenanceOfficer") {
        Some(s) => s,
        None => {
            return None;
        },
    };
    Some(
        AccountData {
            interest_rate,
            account_id,
            parent_account_flag,
            balance,
            product_id,
            current_status,
            currency,
            home_branch,
            account_open_date,
            maintenancehistory: Maintenancehistory {
                last_transaction_branch,
                last_maintenance_officer,
            },
            officer_id,
        },
    )
}

/// All elements decoded as accounts, or nothing if any element fails.
pub open spec fn spec_decode_account_vec(elems: Seq<Json>) -> Option<Seq<AccountData>>
    decreases elems.len(),
{
    if elems.len() == 0 {
        Some(Seq::empty())
    } else {
        match spec_decode_account_vec(elems.drop_last()) {
            Some(rest) => match spec_decode_account(elems.last()) {
                Some(a) => Some(rest.push(a)),
                None => None,
            },
            None => None,
        }
    }
}

proof fn lemma_account_vec_fail(elems: Seq<Json>, i: int)
    requires
        0 <= i < elems.len(),
        spec_decode_account(elems[i]) is None,
    ensures
        spec_decode_account_vec(elems) is None,
    decreases elems.len(),
{
    if i < elems.len() - 1 {
        lemma_account_vec_fail(elems.drop_last(), i);
    }
}

/// Where the accounts listing keeps its accounts: one object or an array
/// under `Content.ServiceResponse.AccountList.account`.
pub open spec fn spec_account_node(j: Json) -> Option<Json> {
    match spec_service_response(j) {
        Some(sr) => match spec_get(sr, "AccountList"@) {
            Some(al) => spec_get(al, "account"@),
            None => None,
        },
        None => None,
    }
}

/// The decoded accounts listing: a single account object yields a
/// one-element list; an array of N decodable accounts yields an N-element
/// list; anything else is a decode error.
pub open spec fn spec_decode_accounts(j: Json) -> Result<Seq<AccountData>, GatewayError> {
    match spec_account_node(j) {
        Some(node) => match spec_decode_account(node) {
            Some(a) => Ok(seq![a]),
            None => match node {
                Json::Arr(elems) => match spec_decode_account_vec(elems@) {
                    Some(list) => Ok(list),
                    None => Err(GatewayError::Decode),
                },
                _ => Err(GatewayError::Decode),
            },
        },
        None => Err(GatewayError::Decode),
    }
}

pub fn decode_customer_accounts(j: &Json) -> (r: Result<Vec<AccountData>, GatewayError>)
    ensures
        match r {
            Ok(v) => spec_decode_accounts(*j) == Ok::<Seq<AccountData>, GatewayError>(v@),
            Err(e) => spec_decode_accounts(*j) == Err::<Seq<AccountData>, GatewayError>(e),
        },
{
    let sr = match service_response(j) {
        Some(sr) => sr,
        None => {
            return Err(GatewayError::Decode);
        },
    };
    let al = match sr.get("AccountList") {
        Some(al) => al,
        None => {
            return Err(GatewayError::Decode);
        },
    };
    let node = match al.get("account") {
        Some(n) => n,
        None => {
            return Err(GatewayError::Decode);
        },
    };
    match decode_account(node) {
        Some(a) => {
            let mut out: Vec<AccountData> = Vec::new();
            out.push(a);
            proof {
                assert(out@ =~= seq![spec_decode_account(*node)->0]);
            }
            Ok(out)
        },
        None => {
            match node.as_arr() {
                Some(elems) => {
                    let n = elems.len();
                    let mut out: Vec<AccountData> = Vec::new();
                    let mut i: usize = 0;
                    proof {
                        assert(elems@.subrange(0, 0) =~= Seq::<Json>::empty());
                    }
                    while i < n
                        invariant
                            n == elems@.len(),
                            i <= n,
                            spec_account_node(*j) == Some(Json::Arr(*elems)),
                            spec_decode_account(Json::Arr(*elems)) is None,
                            spec_decode_account_vec(elems@.subrange(0, i as int)) == Some(out@),
                        decreases n - i,
                    {
                        proof {
                            assert(elems@.subrange(0, i + 1).drop_last() =~= elems@.subrange(
                                0,
                                i as int,
                            ));
                            assert(elems@.subrange(0, i + 1).last() == elems@[i as int]);
                        }
                        match decode_account(&elems[i]) {
                            Some(a) => {
                                out.push(a);
                            },
                            None => {
                                proof {
                                    lemma_account_vec_fail(elems@, i as int);
                                }
                                return Err(GatewayError::Decode);
                            },
                        }
                        i = i + 1;
                    }
                    proof {
                        assert(elems@.subrange(0, n as int) =~= elems@);
                    }
                    Ok(out)
                },
                None => Err(GatewayError::Decode),
            }
        },
    }
}

/// One saved beneficiary; all four fields must be present as strings.
pub open spec fn spec_decode_beneficiary(j: Json) -> Option<Beneficiary> {
    match (
        spec_str_field(j, "AccountID"@),
        spec_str_field(j, "Description"@),
        spec_str_field(j, "Currency"@),
        spec_str_field(j, "BeneficiaryID"@),
    ) {
        (Some(account_id), Some(description), Some(currency), Some(beneficiary_id)) => Some(
            Beneficiary { account_id, description, currency, beneficiary_id },
        ),
        _ => None,
    }
}

pub fn decode_beneficiary(j: &Json) -> (r: Option<Beneficiary>)
    ensures
        r == spec_decode_beneficiary(*j),
{
    let account_id = match str_field(j, "AccountID") {
        Some(s) => s,
        None => {
            return None;
        },
    };
    let description = match str_field(j, "Description") {
        Some(s) => s,
        None => {
            return None;
        },
    };
    let currency = match str_field(j, "Currency") {
        Some(s) => s,
        None => {
            return None;
        },
    };
    let beneficiary_id = match str_field(j, "BeneficiaryID") {
        Some(s) => s,
        None => {
            return None;
        },
    };
    Some(Beneficiary { account_id, description, currency, beneficiary_id })
}

pub open spec fn spec_decode_beneficiary_vec(elems: Seq<Json>) -> Option<Seq<Beneficiary>>
    decreases elems.len(),
{
    if elems.len() == 0 {
        Some(Seq::empty())
    } else {
        match spec_decode_beneficiary_vec(elems.drop_last()) {
            Some(rest) => match spec_decode_beneficiary(elems.last()) {
                Some(b) => Some(rest.push(b)),
                None => None,
            },
            None => None,
        }
    }
}

proof fn lemma_beneficiary_vec_fail(elems: Seq<Json>, i: int)
    requires
        0 <= i < elems.len(),
        spec_decode_beneficiary(elems[i]) is None,
    ensures
        spec_decode_beneficiary_vec(elems) is None,
    decreases elems.len(),
{
    if i < elems.len() - 1 {
        lemma_beneficiary_vec_fail(elems.drop_last(), i);
    }
}

/// Where the beneficiary listing keeps its entries.
pub open spec fn spec_beneficiary_node(j: Json) -> Option<Json> {
    match spec_service_response(j) {
        Some(sr) => match spec_get(sr, "BeneficiaryList"@) {
            Some(bl) => spec_get(bl, "Beneficiary"@),
            None => None,
        },
        None => None,
    }
}

/// The decoded beneficiary listing, under the same one-object-or-array
/// strategy as the accounts listing.
pub open spec fn spec_decode_beneficiaries(j: Json) -> Result<Seq<Beneficiary>, GatewayError> {
    match spec_beneficiary_node(j) {
        Some(node) => match spec_decode_beneficiary(node) {
            Some(b) => Ok(seq![b]),
            None => match node {
                Json::Arr(elems) => match spec_decode_beneficiary_vec(elems@) {
                    Some(list) => Ok(list),
                    None => Err(GatewayError::Decode),
                },
                _ => Err(GatewayError::Decode),
            },
        },
        None => Err(GatewayError::Decode),
    }
}

pub fn decode_beneficiaries(j: &Json) -> (r: Result<Vec<Beneficiary>, GatewayError>)
    ensures
        match r {
            Ok(v) => spec_decode_beneficiaries(*j) == Ok::<Seq<Beneficiary>, GatewayError>(v@),
            Err(e) => spec_decode_beneficiaries(*j) == Err::<Seq<Beneficiary>, GatewayError>(e),
        },
{
    let sr = match service_response(j) {
        Some(sr) => sr,
        None => {
            return Err(GatewayError::Decode);
        },
    };
    let bl = match sr.get("BeneficiaryList") {
        Some(bl) => bl,
        None => {
            return Err(GatewayError::Decode);
        },
    };
    let node = match bl.get("Beneficiary") {
        Some(n) => n,
        None => {
            return Err(GatewayError::Decode);
        },
    };
    match decode_beneficiary(node) {
        Some(b) => {
            let mut out: Vec<Beneficiary> = Vec::new();
            out.push(b);
            proof {
                assert(out@ =~= seq![spec_decode_beneficiary(*node)->0]);
            }
            Ok(out)
        },
        None => {
            match node.as_arr() {
                Some(elems) => {
                    let n = elems.len();
                    let mut out: Vec<Beneficiary> = Vec::new();
                    let mut i: usize = 0;
                    proof {
                        assert(elems@.subrange(0, 0) =~= Seq::<Json>::empty());
                    }
                    while i < n
                        invariant
                            n == elems@.len(),
                            i <= n,
                            spec_beneficiary_node(*j) == Some(Json::Arr(*elems)),
                            spec_decode_beneficiary(Json::Arr(*elems)) is None,
                            spec_decode_beneficiary_vec(elems@.subrange(0, i as int)) == Some(
                                out@,
                            ),
                        decreases n - i,
                    {
                        proof {
                            assert(elems@.subrange(0, i + 1).drop_last() =~= elems@.subrange(
                                0,
                                i as int,
                            ));
                            assert(elems@.subrange(0, i + 1).last() == elems@[i as int]);
                        }
                        match decode_beneficiary(&elems[i]) {
                            Some(b) => {
                                out.push(b);
                            },
                            None => {
                                proof {
                                    lemma_beneficiary_vec_fail(elems@, i as int);
                                }
                                return Err(GatewayError::Decode);
                            },
                        }
                        i = i + 1;
                    }
                    proof {
                        assert(elems@.subrange(0, n as int) =~= elems@);
                    }
                    Ok(out)
                },
                None => Err(GatewayError::Decode),
            }
        },
    }
}

/// The identifier of a freshly created account, which the gateway buries at
/// `Content.ServiceResponse.accountID._content_`.
pub open spec fn spec_created_account_id(j: Json) -> Option<String> {
    match spec_service_response(j) {
        Some(sr) => match spec_get(sr, "accountID"@) {
            Some(acc) => spec_str_field(acc, "_content_"@),
            None => None,
        },
        None => None,
    }
}

pub fn extract_created_account_id(j: &Json) -> (r: Option<String>)
    ensures
        r == spec_created_account_id(*j),
{
    match service_response(j) {
        Some(sr) => match sr.get("accountID") {
            Some(acc) => str_field(acc, "_content_"),
            None => None,
        },
        None => None,
    }
}

/// The before/after balances a transfer-like reply may carry.
pub open spec fn spec_balance_snapshot(j: Json) -> Option<(String, String)> {
    match spec_service_response(j) {
        Some(sr) => match (
            spec_str_field(sr, "BalanceBefore"@),
            spec_str_field(sr, "BalanceAfter"@),
        ) {
            (Some(before), Some(after)) => Some((before, after)),
            _ => None,
        },
        None => None,
    }
}

pub fn extract_balance_snapshot(j: &Json) -> (r: Option<(String, String)>)
    ensures
        r == spec_balance_snapshot(*j),
{
    match service_response(j) {
        Some(sr) => {
            let before = match str_field(sr, "BalanceBefore") {
                Some(s) => s,
                None => {
                    return None;
                },
            };
            let after = match str_field(sr, "BalanceAfter") {
                Some(s) => s,
                None => {
                    return None;
                },
            };
            Some((before, after))
        },
        None => None,
    }
}

/// The certificate number of the customer record, which account creation
/// runs on: `Content.ServiceResponse.CDMCustomer.certificate.certificateNo`.
pub open spec fn spec_certificate_no(j: Json) -> Option<String> {
    match spec_service_response(j) {
        Some(sr) => match spec_get(sr, "CDMCustomer"@) {
            Some(cdm) => match spec_get(cdm, "certificate"@) {
                Some(cert) => spec_str_field(cert, "certificateNo"@),
                None => None,
            },
            None => None,
        },
        None => None,
    }
}

pub fn extract_certificate_no(j: &Json) -> (r: Option<String>)
    ensures
        r == spec_certificate_no(*j),
{
    match service_response(j) {
        Some(sr) => match sr.get("CDMCustomer") {
            Some(cdm) => match cdm.get("certificate") {
                Some(cert) => str_field(cert, "certificateNo"),
                None => None,
            },
            None => None,
        },
        None => None,
    }
}

/// One month's record in the balance trend.
pub open spec fn spec_decode_record(j: Json) -> Option<BalanceRecord> {
    match (spec_str_field(j, "Year_Month"@), spec_str_field(j, "Balance"@)) {
        (Some(year_month), Some(balance)) => Some(BalanceRecord { year_month, balance }),
        _ => None,
    }
}

pub fn decode_record(j: &Json) -> (r: Option<BalanceRecord>)
    ensures
        r == spec_decode_record(*j),
{
    let year_month = match str_field(j, "Year_Month") {
        Some(s) => s,
        None => {
            return None;
        },
    };
    let balance = match str_field(j, "Balance") {
        Some(s) => s,
        None => {
            return None;
        },
    };
    Some(BalanceRecord { year_month, balance })
}

pub open spec fn spec_decode_record_vec(elems: Seq<Json>) -> Option<Seq<BalanceRecord>>
    decreases elems.len(),
{
    if elems.len() == 0 {
        Some(Seq::empty())
    } else {
        match spec_decode_record_vec(elems.drop_last()) {
            Some(rest) => match spec_decode_record(elems.last()) {
                Some(r) => Some(rest.push(r)),
                None => None,
            },
            None => None,
        }
    }
}

proof fn lemma_record_vec_fail(elems: Seq<Json>, i: int)
    requires
        0 <= i < elems.len(),
        spec_decode_record(elems[i]) is None,
    ensures
        spec_decode_record_vec(elems) is None,
    decreases elems.len(),
{
    if i < elems.len() - 1 {
        lemma_record_vec_fail(elems.drop_last(), i);
    }
}

/// The balance trend under `Content.ServiceResponse.TrendData`: an array of
/// month-end records plus the running month.
pub open spec fn spec_decode_trend(j: Json) -> Result<
    (Seq<BalanceRecord>, BalanceRecord),
    GatewayError,
> {
    match spec_service_response(j) {
        Some(sr) => match spec_get(sr, "TrendData"@) {
            Some(td) => match spec_get(td, "MonthEndBalance"@) {
                Some(Json::Arr(elems)) => match spec_decode_record_vec(elems@) {
                    Some(list) => match spec_get(td, "CurrentMonth"@) {
                        Some(cm) => match spec_decode_record(cm) {
                            Some(current) => Ok((list, current)),
                            None => Err(GatewayError::Decode),
                        },
                        None => Err(GatewayError::Decode),
                    },
                    None => Err(GatewayError::Decode),
                },
                _ => Err(GatewayError::Decode),
            },
            None => Err(GatewayError::Decode),
        },
        None => Err(GatewayError::Decode),
    }
}

/// The request-OTP reply in its full envelope, as far as it is present:
/// nothing but a status header under the two wrappers.
pub fn decode_otp_envelope(j: &Json) -> (r: Option<
    crate::models::TBankResponse<crate::models::ServiceResponseHeader<Error>>,
>)
    ensures
        match r {
            Some(env) => {
                &&& spec_resp_header(*j) matches Some(h)
                &&& env.content.service_response.service_response_header.error_text
                    == spec_str_field(h, "ErrorText"@)
                &&& env.content.service_response.service_response_header.error_details
                    == spec_str_field(h, "ErrorDetails"@)
                &&& env.content.service_response.service_response_header.global_error_id
                    == spec_str_field(h, "GlobalErrorID"@)
            },
            None => spec_resp_header(*j) is None,
        },
{
    match resp_header(j) {
        Some(h) => Some(
            crate::models::TBankResponse {
                content: crate::models::ServiceResponseBody {
                    service_response: crate::models::ServiceResponseHeader {
                        service_response_header: decode_error_header(h),
                    },
                },
            },
        ),
        None => None,
    }
}

/// The accounts listing in its full envelope: the decoded account list
/// under the gateway's wrappers, with the status header alongside.
pub fn decode_accounts_envelope(j: &Json) -> (r: Result<
    crate::models::TBankResponse<crate::models::GetCustomerAccounts<Vec<AccountData>>>,
    GatewayError,
>)
    ensures
        match r {
            Ok(env) => spec_decode_accounts(*j) == Ok::<Seq<AccountData>, GatewayError>(
                env.content.service_response.account_list.account@,
            ),
            Err(e) => spec_decode_accounts(*j) == Err::<Seq<AccountData>, GatewayError>(e),
        },
{
    let null = Json::Null;
    let accounts = match decode_customer_accounts(j) {
        Ok(a) => a,
        Err(e) => {
            return Err(e);
        },
    };
    let header = match service_response(j) {
        Some(sr) => decode_error_header(sub_node(sr, "ServiceRespHeader", &null)),
        None => decode_error_header(&null),
    };
    Ok(
        crate::models::TBankResponse {
            content: crate::models::ServiceResponseBody {
                service_response: crate::models::GetCustomerAccounts {
                    service_response_header: header,
                    account_list: crate::models::Account { account: accounts },
                },
            },
        },
    )
}

/// The beneficiary listing as the gateway's own `BeneficiaryList` record.
pub fn decode_beneficiary_list(j: &Json) -> (r: Result<
    crate::models::BeneficiaryList,
    GatewayError,
>)
    ensures
        match r {
            Ok(bl) => spec_decode_beneficiaries(*j) == Ok::<Seq<Beneficiary>, GatewayError>(
                bl.beneficiary_list.beneficiary@,
            ),
            Err(e) => spec_decode_beneficiaries(*j) == Err::<Seq<Beneficiary>, GatewayError>(e),
        },
{
    match decode_beneficiaries(j) {
        Ok(list) => Ok(
            crate::models::BeneficiaryList {
                beneficiary_list: crate::models::Beneficiaries { beneficiary: list },
            },
        ),
        Err(e) => Err(e),
    }
}

/// The value under `key`, or a JSON null when the object lacks it; how the
/// loosely-shaped parts of the customer record are read.
pub open spec fn spec_sub(j: Json, key: Seq<char>) -> Json {
    match spec_get(j, key) {
        Some(v) => v,
        None => Json::Null,
    }
}

fn sub_node<'a>(j: &'a Json, key: &str, null: &'a Json) -> (r: &'a Json)
    requires
        *null == Json::Null,
    ensures
        *r == spec_sub(*j, key@),
{
    match j.get(key) {
        Some(v) => v,
        None => null,
    }
}

/// The address block of the customer record; absent fields stay absent.
pub fn decode_address(j: &Json) -> (r: Address)
    ensures
        r.country == spec_str_field(*j, "country"@),
        r.city == spec_str_field(*j, "city"@),
        r.postal_code == spec_str_field(*j, "postalCode"@),
        r.street_address1 == spec_str_field(*j, "streetAddress1"@),
        r.street_address2 == spec_str_field(*j, "streetAddress2"@),
        r.state == spec_str_field(*j, "state"@),
{
    Address {
        country: str_field(j, "country"),
        city: str_field(j, "city"),
        postal_code: str_field(j, "postalCode"),
        street_address1: str_field(j, "streetAddress1"),
        street_address2: str_field(j, "streetAddress2"),
        state: str_field(j, "state"),
    }
}

pub fn decode_phone(j: &Json) -> (r: Phone)
    ensures
        r.area_code == spec_str_field(*j, "areaCode"@),
        r.country_code == spec_str_field(*j, "countryCode"@),
        r.local_number == spec_str_field(*j, "localNumber"@),
{
    Phone {
        area_code: str_field(j, "areaCode"),
        country_code: str_field(j, "countryCode"),
        local_number: str_field(j, "localNumber"),
    }
}

pub fn decode_profile(j: &Json) -> (r: Profile)
    ensures
        r.customer_type == spec_str_field(*j, "customerType"@),
        r.bank_id == spec_str_field(*j, "bankID"@),
        r.occupation == spec_str_field(*j, "occupation"@),
        r.nationality == spec_str_field(*j, "nationality"@),
        r.gender == spec_str_field(*j, "gender"@),
        r.is_billing_org == spec_str_field(*j, "isBillingOrg"@),
        r.is_merchant == spec_str_field(*j, "isMerchant"@),
        r.ethnic_group == spec_str_field(*j, "ethnicGroup"@),
        r.fax == spec_str_field(*j, "fax"@),
        r.email == spec_str_field(*j, "email"@),
{
    Profile {
        customer_type: str_field(j, "customerType"),
        bank_id: str_field(j, "bankID"),
        occupation: str_field(j, "occupation"),
        nationality: str_field(j, "nationality"),
        gender: str_field(j, "gender"),
        is_billing_org: str_field(j, "isBillingOrg"),
        is_merchant: str_field(j, "isMerchant"),
        ethnic_group: str_field(j, "ethnicGroup"),
        fax: str_field(j, "fax"),
        email: str_field(j, "email"),
    }
}

pub fn decode_certificate(j: &Json) -> (r: Certificate)
    ensures
        r.certificate_expiry_date == spec_str_field(*j, "certificateExpiryDate"@),
        r.certificate_issuer == spec_str_field(*j, "certificateIssuer"@),
        r.certificate_no == spec_str_field(*j, "certificateNo"@),
        r.certificate_type == spec_str_field(*j, "certificateType"@),
{
    Certificate {
        certificate_expiry_date: str_field(j, "certificateExpiryDate"),
        certificate_issuer: str_field(j, "certificateIssuer"),
        certificate_no: str_field(j, "certificateNo"),
        certificate_type: str_field(j, "certificateType"),
    }
}

pub fn decode_cellphone(j: &Json) -> (r: Cellphone)
    ensures
        r.phone_number == spec_str_field(*j, "phoneNumber"@),
        r.country_code == spec_str_field(*j, "countryCode"@),
{
    Cellphone {
        phone_number: str_field(j, "phoneNumber"),
        country_code: str_field(j, "countryCode"),
    }
}

pub fn decode_maintenance_trailer(j: &Json) -> (r: Maintenacehistory)
    ensures
        r.registration_date == spec_str_field(*j, "registrationDate"@),
        r.last_maintenance_teller_id == spec_str_field(*j, "lastMaintenanceTellerId"@),
{
    Maintenacehistory {
        registration_date: str_field(j, "registrationDate"),
        last_maintenance_teller_id: str_field(j, "lastMaintenanceTellerId"),
    }
}

pub fn decode_customer_ref(j: &Json) -> (r: Customer)
    ensures
        r.customer_id == spec_str_field(*j, "customerID"@),
{
    Customer { customer_id: str_field(j, "customerID") }
}

/// The customer master record under `Content.ServiceResponse.CDMCustomer`.
/// The four identity strings must be present; every loosely-shaped block
/// decodes to whatever of it is there.
pub fn decode_customer_details(j: &Json) -> (r: Result<GetCustomerDetails, GatewayError>)
    ensures
        match r {
            Ok(d) => {
                &&& spec_service_response(*j) matches Some(sr)
                &&& spec_get(sr, "CDMCustomer"@) matches Some(cdm)
                &&& Some(d.cdm_customer.family_name) == spec_str_field(cdm, "familyName"@)
                &&& Some(d.cdm_customer.given_name) == spec_str_field(cdm, "givenName"@)
                &&& Some(d.cdm_customer.tax_identifier) == spec_str_field(cdm, "taxIdentifier"@)
                &&& Some(d.cdm_customer.date_of_birth) == spec_str_field(cdm, "dateOfBirth"@)
                &&& d.cdm_customer.certificate.certificate_no == spec_str_field(
                    spec_sub(cdm, "certificate"@),
                    "certificateNo"@,
                )
                &&& d.cdm_customer.customer.customer_id == spec_str_field(
                    spec_sub(cdm, "customer"@),
                    "customerID"@,
                )
                &&& d.cdm_customer.address.country == spec_str_field(
                    spec_sub(cdm, "address"@),
                    "country"@,
                )
                &&& d.service_response_header.error_details == spec_str_field(
                    spec_sub(sr, "ServiceRespHeader"@),
                    "ErrorDetails"@,
                )
            },
            Err(e) => e == GatewayError::Decode && (match spec_service_response(*j) {
                Some(sr) => match spec_get(sr, "CDMCustomer"@) {
                    Some(cdm) => spec_str_field(cdm, "familyName"@) is None || spec_str_field(
                        cdm,
                        "givenName"@,
                    ) is None || spec_str_field(cdm, "taxIdentifier"@) is None || spec_str_field(
                        cdm,
                        "dateOfBirth"@,
                    ) is None,
                    None => true,
                },
                None => true,
            }),
        },
{
    let null = Json::Null;
    let sr = match service_response(j) {
        Some(sr) => sr,
        None => {
            return Err(GatewayError::Decode);
        },
    };
    let cdm = match sr.get("CDMCustomer") {
        Some(c) => c,
        None => {
            return Err(GatewayError::Decode);
        },
    };
    let family_name = match str_field(cdm, "familyName") {
        Some(s) => s,
        None => {
            return Err(GatewayError::Decode);
        },
    };
    let given_name = match str_field(cdm, "givenName") {
        Some(s) => s,
        None => {
            return Err(GatewayError::Decode);
        },
    };
    let tax_identifier = match str_field(cdm, "taxIdentifier") {
        Some(s) => s,
        None => {
            return Err(GatewayError::Decode);
        },
    };
    let date_of_birth = match str_field(cdm, "dateOfBirth") {
        Some(s) => s,
        None => {
            return Err(GatewayError::Decode);
        },
    };
    let header = decode_error_header(sub_node(sr, "ServiceRespHeader", &null));
    let cdm_customer = CdmCustomer {
        address: decode_address(sub_node(cdm, "address", &null)),
        phone: decode_phone(sub_node(cdm, "phone", &null)),
        profile: decode_profile(sub_node(cdm, "profile", &null)),
        family_name,
        given_name,
        certificate: decode_certificate(sub_node(cdm, "certificate", &null)),
        tax_identifier,
        cellphone: decode_cellphone(sub_node(cdm, "cellphone", &null)),
        maintenacehistory: decode_maintenance_trailer(sub_node(cdm, "maintenacehistory", &null)),
        date_of_birth,
        customer: decode_customer_ref(sub_node(cdm, "customer", &null)),
    };
    Ok(GetCustomerDetails { service_response_header: header, cdm_customer })
}

/// The onboarding reply: its status header, and the new customer's account
/// details when the gateway attached them.
pub fn decode_onboard_reply(j: &Json) -> (r: Result<ReplyOnboardCustomer, GatewayError>)
    ensures
        match r {
            Ok(d) => {
                &&& spec_service_response(*j) matches Some(sr)
                &&& d.service_response_header.error_text == spec_str_field(
                    spec_sub(sr, "ServiceRespHeader"@),
                    "ErrorText"@,
                )
                &&& d.service_response_header.error_details == spec_str_field(
                    spec_sub(sr, "ServiceRespHeader"@),
                    "ErrorDetails"@,
                )
                &&& match d.customer_details {
                    Some(cd) => {
                        &&& spec_get(sr, "CustomerDetails"@) matches Some(node)
                        &&& Some(cd.account_id) == spec_str_field(node, "AccountID"@)
                        &&& Some(cd.pin) == spec_str_field(node, "PIN"@)
                        &&& Some(cd.customer_id) == spec_str_field(node, "CustomerID"@)
                        &&& cd.branch_id == spec_str_field(node, "branchID"@)
                    },
                    None => match spec_service_response(*j) {
                        Some(sr2) => match spec_get(sr2, "CustomerDetails"@) {
                            Some(node) => spec_str_field(node, "AccountID"@) is None
                                || spec_str_field(node, "PIN"@) is None || spec_str_field(
                                node,
                                "CustomerID"@,
                            ) is None,
                            None => true,
                        },
                        None => true,
                    },
                }
            },
            Err(e) => e == GatewayError::Decode && spec_service_response(*j) is None,
        },
{
    let null = Json::Null;
    let sr = match service_response(j) {
        Some(sr) => sr,
        None => {
            return Err(GatewayError::Decode);
        },
    };
    let header = decode_error_header(sub_node(sr, "ServiceRespHeader", &null));
    let customer_details = match sr.get("CustomerDetails") {
        Some(node) => {
            match (
                str_field(node, "AccountID"),
                str_field(node, "PIN"),
                str_field(node, "CustomerID"),
            ) {
                (Some(account_id), Some(pin), Some(customer_id)) => Some(
                    CustomerData {
                        account_id,
                        branch_id: str_field(node, "branchID"),
                        pin,
                        customer_id,
                    },
                ),
                _ => None,
            }
        },
        None => None,
    };
    Ok(ReplyOnboardCustomer { service_response_header: header, customer_details })
}

/// The identity part of the login reply together with its status header.
pub fn decode_login_envelope(j: &Json) -> (r: Option<
    crate::models::TBankResponse<crate::models::ServiceLoginOtpResponse>,
>)
    ensures
        match r {
            Some(env) => {
                &&& spec_service_response(*j) matches Some(sr)
                &&& env.content.service_response.service_response_header.error_details
                    == spec_str_field(spec_sub(sr, "ServiceRespHeader"@), "ErrorDetails"@)
                &&& env.content.service_response.login_otp_response.customer_id == spec_str_field(
                    spec_sub(sr, "Login_OTP_Authenticate-Response"@),
                    "CustomerID"@,
                )
                &&& env.content.service_response.login_otp_response.bank_id == spec_str_field(
                    spec_sub(sr, "Login_OTP_Authenticate-Response"@),
                    "BankID"@,
                )
            },
            None => spec_service_response(*j) is None,
        },
{
    let null = Json::Null;
    let sr = match service_response(j) {
        Some(sr) => sr,
        None => {
            return None;
        },
    };
    let header = decode_error_header(sub_node(sr, "ServiceRespHeader", &null));
    let identity = sub_node(sr, "Login_OTP_Authenticate-Response", &null);
    let login_otp_response = ReplyLoginCustomer {
        customer_id: str_field(identity, "CustomerID"),
        bank_id: str_field(identity, "BankID"),
    };
    Some(
        crate::models::TBankResponse {
            content: crate::models::ServiceResponseBody {
                service_response: crate::models::ServiceLoginOtpResponse {
                    login_otp_response,
                    service_response_header: header,
                },
            },
        },
    )
}

pub fn decode_monthly_balance_trend(j: &Json) -> (r: Result<ChartBody, GatewayError>)
    ensures
        match r {
            Ok(c) => spec_decode_trend(*j) matches Ok(p) && p.0 == c.month_end_balance@ && p.1
                == c.current_month,
            Err(e) => spec_decode_trend(*j) matches Err(se) && se == e,
        },
{
    let sr = match service_response(j) {
        Some(sr) => sr,
        None => {
            return Err(GatewayError::Decode);
        },
    };
    let td = match sr.get("TrendData") {
        Some(td) => td,
        None => {
            return Err(GatewayError::Decode);
        },
    };
    let meb = match td.get("MonthEndBalance") {
        Some(m) => m,
        None => {
            return Err(GatewayError::Decode);
        },
    };
    let elems = match meb.as_arr() {
        Some(e) => e,
        None => {
            return Err(GatewayError::Decode);
        },
    };
    let n = elems.len();
    let mut list: Vec<BalanceRecord> = Vec::new();
    let mut i: usize = 0;
    proof {
        assert(elems@.subrange(0, 0) =~= Seq::<Json>::empty());
    }
    while i < n
        invariant
            n == elems@.len(),
            i <= n,
            spec_service_response(*j) matches Some(sr2) && spec_get(sr2, "TrendData"@) matches Some(
                td2,
            ) && spec_get(td2, "MonthEndBalance"@) == Some(Json::Arr(*elems)),
            spec_decode_record_vec(elems@.subrange(0, i as int)) == Some(list@),
        decreases n - i,
    {
        proof {
            assert(elems@.subrange(0, i + 1).drop_last() =~= elems@.subrange(0, i as int));
            assert(elems@.subrange(0, i + 1).last() == elems@[i as int]);
        }
        match decode_record(&elems[i]) {
            Some(rec) => {
                list.push(rec);
            },
            None => {
                proof {
                    lemma_record_vec_fail(elems@, i as int);
                }
                return Err(GatewayError::Decode);
            },
        }
        i = i + 1;
    }
    proof {
        assert(elems@.subrange(0, n as int) =~= elems@);
    }
    let cm = match td.get("CurrentMonth") {
        Some(c) => c,
        None => {
            return Err(GatewayError::Decode);
        },
    };
    match decode_record(cm) {
        Some(current) => Ok(ChartBody { month_end_balance: list, current_month: current }),
        None => Err(GatewayError::Decode),
    }
}

} // verus!
