//! The boundary between the controller and the outside world.
//!
//! The controller never performs I/O. When a step needs the gateway it
//! hands back a `GatewayOp` together with a `Cont`; the caller performs the
//! call, decodes the reply with the `decode` functions, and resumes the
//! controller with a `GatewayReply`. A `Cont` lives only for the one update
//! that created it.

use vstd::prelude::*;

use crate::decode::GatewayError;
use crate::models::{
    AccountData, AddBeneficiaryBody, Beneficiary, ChartBody, CustomerRequest,
    HistoricalMonthlyBalanceBody, RequestOTP, TransferBody,
};

verus! {

/// A gateway call the caller must perform next.
pub enum GatewayOp {
    RequestOtp(RequestOTP),
    LoginCustomer(CustomerRequest),
    GetCustomerAccounts(CustomerRequest),
    GetBeneficiaries(CustomerRequest),
    AddBeneficiary(CustomerRequest, AddBeneficiaryBody),
    Transfer(CustomerRequest, TransferBody),
    GetCustomerDetails(CustomerRequest),
    CreateAccount(CustomerRequest),
    GetMonthlyBalanceTrend(CustomerRequest, HistoricalMonthlyBalanceBody),
    GetBalanceChart(ChartBody),
}

/// The decoded result of a performed call, whatever shape it came in.
pub enum GatewayReply {
    /// The call failed: transport, shape, or business result.
    Failed(GatewayError),
    /// The OTP request reported business success.
    OtpRequested,
    /// The login reported business success.
    LoggedIn,
    Accounts(Vec<AccountData>),
    Beneficiaries(Vec<Beneficiary>),
    /// A transfer-like operation reported `invocation successful`.
    InvocationOk,
    /// The customer's certificate number, when the details carry one.
    CertificateNo(Option<String>),
    /// The identifier of a freshly created account, when one was returned.
    CreatedAccount(Option<String>),
    Trend(ChartBody),
    ChartImage(Vec<u8>),
}

/// Where to pick the conversation up once the call comes back.
pub enum Cont {
    /// A PIN was submitted; waiting for the OTP request's outcome.
    OtpStatus { user_id: String, pin: String },
    /// An OTP was submitted; waiting for the login's outcome.
    LoginStatus { cred: CustomerRequest },
    /// An amount was submitted; waiting for the accounts to offer sources
    /// with a balance above it.
    SourcesForAmount { amount: u64 },
    /// Waiting for the beneficiary list to offer destinations.
    BeneficiaryChoices,
    /// A source was picked and auto-invest applies; waiting for the
    /// accounts to check the balance covers both legs.
    SummaryWithInvest { tx: TransferBody, percent: u8 },
    /// The primary transfer is on its way; `invest` names the secondary
    /// leg's target and percentage when one applies.
    PrimaryTransfer { data: CustomerRequest, tx: TransferBody, invest: Option<(String, u8)> },
    /// The secondary auto-invest transfer is on its way.
    SecondaryTransfer,
    /// The add-beneficiary call is on its way.
    AddBenStatus,
    /// Waiting for the customer details that account creation needs.
    DetailsForCreate { data: CustomerRequest, user_id: String },
    /// Waiting for the created account's identifier.
    CreatedAccount { user_id: String },
    /// Waiting for the accounts to build the auto-invest menu.
    InvestMenu { updating: bool, current: Option<String> },
    /// Waiting for the accounts to list balances.
    BalanceList,
    /// Waiting for the balance trend of one account.
    TrendForChart { account: String },
    /// Waiting for the rendered chart image.
    ChartImage { account: String },
}

/// What one step of the conversation yields: a finished reply, or a call
/// to perform before resuming.
pub enum Outcome {
    Done(crate::screen::Reply),
    Call(GatewayOp, Cont),
}

} // verus!
