use vstd::prelude::*;

verus! {

/// Configuration of the Twilio SMS provider: the account, its token and the
/// sending number. The delivery itself happens outside the core.
#[derive(Debug)]
pub struct TwilioProvider {
    pub account_sid: String,
    pub auth_token: String,
    pub from_number: String,
}

impl TwilioProvider {
    /// A Twilio configuration from its three credentials.
    pub fn new(account_sid: String, auth_token: String, from_number: String) -> (r: Self)
        ensures
            r.account_sid@ == account_sid@,
            r.auth_token@ == auth_token@,
            r.from_number@ == from_number@,
    {
        TwilioProvider { account_sid, auth_token, from_number }
    }
}

/// The SMS provider used when no Twilio credentials are configured: it
/// only logs.
#[derive(Debug)]
pub struct MockSmsProvider {
}

impl MockSmsProvider {
    /// The mock provider.
    pub fn new() -> (r: Self) {
        MockSmsProvider {  }
    }
}

impl Default for MockSmsProvider {
    fn default() -> (r: Self) {
        MockSmsProvider {  }
    }
}

/// Which SMS provider the configuration selects.
#[derive(Debug)]
pub enum SmsProviderChoice {
    Twilio(TwilioProvider),
    Mock(MockSmsProvider),
}

/// Selects the SMS provider: Twilio when all three credentials are
/// configured, otherwise the mock provider.
pub fn create_sms_provider(
    account_sid: Option<String>,
    auth_token: Option<String>,
    from_number: Option<String>,
) -> (r: SmsProviderChoice)
    ensures
        (account_sid is Some && auth_token is Some && from_number is Some) ==> (r matches
            SmsProviderChoice::Twilio(t) && t.account_sid@ == account_sid.unwrap()@
            && t.auth_token@ == auth_token.unwrap()@ && t.from_number@ == from_number.unwrap()@),
        !(account_sid is Some && auth_token is Some && from_number is Some) ==> r matches
            SmsProviderChoice::Mock(_),
{
    match (account_sid, auth_token, from_number) {
        (Some(sid), Some(token), Some(from)) => SmsProviderChoice::Twilio(
            TwilioProvider::new(sid, token, from),
        ),
        _ => SmsProviderChoice::Mock(MockSmsProvider::new()),
    }
}

} // verus!
