//! Data model of the gateway wire format and of the session drafts.
//!
//! Field names of the corresponding JSON documents use the gateway's exact
//! external spelling; the builders in `encode` and the readers in `decode`
//! state that spelling in their contracts.

use vstd::prelude::*;

verus! {

/// Header identifying an authenticated gateway operation: the operation name
/// plus the caller's credentials. Also the durable credential record bound to
/// a chat after a successful login.
#[derive(Debug)]
pub struct CustomerRequest {
    pub service_name: String,
    pub user_id: String,
    pub pin: String,
    pub otp: String,
}

impl Clone for CustomerRequest {
    fn clone(&self) -> (r: Self)
        ensures
            r == *self,
    {
        CustomerRequest {
            service_name: self.service_name.clone(),
            user_id: self.user_id.clone(),
            pin: self.pin.clone(),
            otp: self.otp.clone(),
        }
    }
}

/// Header of the OTP-request operation: a login attempt before the one-time
/// passcode exists.
#[derive(Debug)]
pub struct RequestOTP {
    pub service_name: String,
    pub user_id: String,
    pub pin: String,
}

impl Clone for RequestOTP {
    fn clone(&self) -> (r: Self)
        ensures
            r == *self,
    {
        RequestOTP {
            service_name: self.service_name.clone(),
            user_id: self.user_id.clone(),
            pin: self.pin.clone(),
        }
    }
}

/// A funds-transfer order, built incrementally across the conversation:
/// destination first, then amount, then source. The reference number is
/// drawn once per intent.
#[derive(Debug)]
pub struct TransferBody {
    pub account_from: String,
    pub account_to: String,
    pub transaction_amount: String,
    pub transaction_reference_number: String,
    pub narrative: String,
}

impl Clone for TransferBody {
    fn clone(&self) -> (r: Self)
        ensures
            r == *self,
    {
        TransferBody {
            account_from: self.account_from.clone(),
            account_to: self.account_to.clone(),
            transaction_amount: self.transaction_amount.clone(),
            transaction_reference_number: self.transaction_reference_number.clone(),
            narrative: self.narrative.clone(),
        }
    }
}

/// A beneficiary to be registered: account number first, label second.
#[derive(Debug)]
pub struct AddBeneficiaryBody {
    pub account_id: String,
    pub description: String,
}

impl Clone for AddBeneficiaryBody {
    fn clone(&self) -> (r: Self)
        ensures
            r == *self,
    {
        AddBeneficiaryBody {
            account_id: self.account_id.clone(),
            description: self.description.clone(),
        }
    }
}

/// The error/status header every gateway reply carries; the gateway also
/// reports success through these same text fields.
#[derive(Debug)]
pub struct Error {
    pub error_text: Option<String>,
    pub error_details: Option<String>,
    pub global_error_id: Option<String>,
}

/// Outermost envelope of a gateway reply: everything sits under `Content`.
#[derive(Debug)]
pub struct TBankResponse<T> {
    pub content: ServiceResponseBody<T>,
}

/// Second envelope: the operation's payload under `ServiceResponse`.
#[derive(Debug)]
pub struct ServiceResponseBody<T> {
    pub service_response: T,
}

/// A payload that is nothing but a status header under `ServiceRespHeader`.
#[derive(Debug)]
pub struct ServiceResponseHeader<T> {
    pub service_response_header: T,
}

/// Identity of the customer a successful login names.
#[derive(Debug)]
pub struct ReplyLoginCustomer {
    pub customer_id: Option<String>,
    pub bank_id: Option<String>,
}

/// Account details of a freshly onboarded customer.
#[derive(Debug)]
pub struct CustomerData {
    pub account_id: String,
    pub branch_id: Option<String>,
    pub pin: String,
    pub customer_id: String,
}

/// Payload of the login-with-OTP reply.
#[derive(Debug)]
pub struct ServiceLoginOtpResponse {
    pub login_otp_response: ReplyLoginCustomer,
    pub service_response_header: Error,
}

/// Payload of the onboard-customer reply.
#[derive(Debug)]
pub struct ReplyOnboardCustomer {
    pub service_response_header: Error,
    pub customer_details: Option<CustomerData>,
}

/// One account as the accounts listing reports it. Balances and rates stay
/// the strings the gateway sent; they are parsed only where arithmetic
/// needs them.
#[derive(Debug)]
pub struct AccountData {
    pub interest_rate: String,
    pub account_id: String,
    pub parent_account_flag: String,
    pub balance: String,
    pub product_id: String,
    pub current_status: String,
    pub currency: String,
    pub home_branch: String,
    pub account_open_date: String,
    pub maintenancehistory: Maintenancehistory,
    pub officer_id: String,
}

/// Book-keeping trailer of an account record.
#[derive(Debug)]
pub struct Maintenancehistory {
    pub last_transaction_branch: String,
    pub last_maintenance_officer: String,
}

/// Payload of the accounts listing: a status header and the account list.
#[derive(Debug)]
pub struct GetCustomerAccounts<T> {
    pub service_response_header: Error,
    pub account_list: Account<T>,
}

/// The accounts themselves: one object or an array, depending on how many
/// the customer has.
#[derive(Debug)]
pub struct Account<T> {
    pub account: T,
}

/// Payload of the customer-details reply.
#[derive(Debug)]
pub struct GetCustomerDetails {
    pub service_response_header: Error,
    pub cdm_customer: CdmCustomer,
}

/// The customer master record.
#[derive(Debug)]
pub struct CdmCustomer {
    pub address: Address,
    pub phone: Phone,
    pub profile: Profile,
    pub family_name: String,
    pub given_name: String,
    pub certificate: Certificate,
    pub tax_identifier: String,
    pub cellphone: Cellphone,
    pub maintenacehistory: Maintenacehistory,
    pub date_of_birth: String,
    pub customer: Customer,
}

#[derive(Debug)]
pub struct Address {
    pub country: Option<String>,
    pub city: Option<String>,
    pub postal_code: Option<String>,
    pub street_address1: Option<String>,
    pub street_address2: Option<String>,
    pub state: Option<String>,
}

#[derive(Debug)]
pub struct Phone {
    pub area_code: Option<String>,
    pub country_code: Option<String>,
    pub local_number: Option<String>,
}

#[derive(Debug)]
pub struct Profile {
    pub customer_type: Option<String>,
    pub bank_id: Option<String>,
    pub occupation: Option<String>,
    pub nationality: Option<String>,
    pub gender: Option<String>,
    pub is_billing_org: Option<String>,
    pub is_merchant: Option<String>,
    pub ethnic_group: Option<String>,
    pub fax: Option<String>,
    pub email: Option<String>,
}

/// The identity paper on file; its number is what account creation runs on.
#[derive(Debug)]
pub struct Certificate {
    pub certificate_expiry_date: Option<String>,
    pub certificate_issuer: Option<String>,
    pub certificate_no: Option<String>,
    pub certificate_type: Option<String>,
}

#[derive(Debug)]
pub struct Cellphone {
    pub phone_number: Option<String>,
    pub country_code: Option<String>,
}

/// Book-keeping trailer of the customer record (the gateway's spelling).
#[derive(Debug)]
pub struct Maintenacehistory {
    pub registration_date: Option<String>,
    pub last_maintenance_teller_id: Option<String>,
}

#[derive(Debug)]
pub struct Customer {
    pub customer_id: Option<String>,
}

/// Content of the onboard-customer operation.
#[derive(Debug)]
pub struct OnBoardCustomerData {
    pub service_name: String,
    pub ic_number: String,
    pub family_name: String,
    pub given_name: String,
    pub date_of_birth: String,
    pub gender: String,
    pub occupation: String,
    pub street_address: String,
    pub city: String,
    pub state: String,
    pub country: String,
    pub postal_code: String,
    pub country_code: String,
    pub mobile_number: String,
    pub preferred_user_id: String,
    pub currency: String,
    pub bank_id: String,
}

/// Fuller written form of the onboard request, email included.
#[derive(Debug)]
pub struct RequestOnboardCustomer {
    pub service_name: String,
    pub ic_number: String,
    pub family_name: String,
    pub given_name: String,
    pub date_of_birth: String,
    pub gender: String,
    pub occupation: String,
    pub street_address: String,
    pub city: String,
    pub state: String,
    pub country: String,
    pub postal_code: String,
    pub email_address: String,
    pub country_code: String,
    pub mobile_number: String,
    pub preferred_user_id: String,
    pub currency: String,
    pub bank_id: String,
}

/// Status-plus-identifiers shape some onboarding errors come back in.
#[derive(Debug)]
pub struct OnBoardCustomerError {
    pub error_text: Option<String>,
    pub error_details: Option<String>,
    pub global_error_id: Option<String>,
    pub account_id: Option<String>,
    pub customer_id: Option<String>,
    pub branch_id: Option<String>,
    pub pin: Option<String>,
}

/// Content of a deposit operation.
#[derive(Debug)]
pub struct DepositRequest {
    pub service_name: String,
    pub user_id: String,
    pub pin: String,
    pub otp: String,
    pub account_id: String,
    pub amount: String,
    pub narrative: String,
}

/// Reply of a deposit operation; the status fields double as the success
/// report.
#[derive(Debug)]
pub struct DepositResponse {
    pub error_text: String,
    pub global_error_id: String,
    pub error_details: String,
    pub balance_after: String,
    pub balance_before: String,
    pub transaction_id: String,
}

/// Envelope of the beneficiary listing.
#[derive(Debug)]
pub struct BeneficiaryList {
    pub beneficiary_list: Beneficiaries,
}

/// The saved beneficiaries themselves.
#[derive(Debug)]
pub struct Beneficiaries {
    pub beneficiary: Vec<Beneficiary>,
}

/// One saved transfer destination.
#[derive(Debug)]
pub struct Beneficiary {
    pub account_id: String,
    pub description: String,
    pub currency: String,
    pub beneficiary_id: String,
}

impl Clone for Beneficiary {
    fn clone(&self) -> (r: Self)
        ensures
            r == *self,
    {
        Beneficiary {
            account_id: self.account_id.clone(),
            description: self.description.clone(),
            currency: self.currency.clone(),
            beneficiary_id: self.beneficiary_id.clone(),
        }
    }
}

/// Reply of the transfer operation, as far as its shape is stable.
#[derive(Debug)]
pub struct TransferResponse {
    pub status_text: String,
    pub post_balance: Option<String>,
    pub pre_balance: Option<String>,
    pub transaction_amount: String,
    pub transaction_reference_number: Option<String>,
}

/// One month's closing balance in the trend report.
#[derive(Debug)]
pub struct BalanceRecord {
    pub year_month: String,
    pub balance: String,
}

/// The balance trend handed to the chart service.
#[derive(Debug)]
pub struct ChartBody {
    pub month_end_balance: Vec<BalanceRecord>,
    pub current_month: BalanceRecord,
}

/// Content of the monthly-balance-trend operation.
#[derive(Debug)]
pub struct HistoricalMonthlyBalanceBody {
    pub account_id: String,
    pub num_months: String,
}

impl Clone for HistoricalMonthlyBalanceBody {
    fn clone(&self) -> (r: Self)
        ensures
            r == *self,
    {
        HistoricalMonthlyBalanceBody {
            account_id: self.account_id.clone(),
            num_months: self.num_months.clone(),
        }
    }
}

/// Which group of saved beneficiaries a listing asks for.
#[derive(Debug)]
pub enum BeneficiaryEnum {
    OWN,
    OTHER,
}

impl BeneficiaryEnum {
    /// The gateway's spelling of the account group.
    pub fn to_string(&self) -> (r: String)
        ensures
            matches!(*self, BeneficiaryEnum::OWN) ==> r@ == "OWN"@,
            matches!(*self, BeneficiaryEnum::OTHER) ==> r@ == "OTHER"@,
    {
        match self {
            BeneficiaryEnum::OWN => String::from_str("OWN"),
            BeneficiaryEnum::OTHER => String::from_str("OTHER"),
        }
    }
}

} // verus!
