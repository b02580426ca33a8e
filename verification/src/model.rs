//! The records that travel through the service.

use vstd::prelude::*;

verus! {

/// A submitted "send email" form. No field is validated: any text is accepted.
#[derive(Clone, Debug, PartialEq, Eq)]
pub struct EmailRequest {
    pub name: String,
    pub from: String,
    pub subject: String,
    pub to: String,
    pub html: String,
    pub text: String,
}

/// The mathematical content of an [`EmailRequest`].
pub struct EmailRequestView {
    pub name: Seq<char>,
    pub from: Seq<char>,
    pub subject: Seq<char>,
    pub to: Seq<char>,
    pub html: Seq<char>,
    pub text: Seq<char>,
}

impl View for EmailRequest {
    type V = EmailRequestView;

    open spec fn view(&self) -> EmailRequestView {
        EmailRequestView {
            name: self.name@,
            from: self.from@,
            subject: self.subject@,
            to: self.to@,
            html: self.html@,
            text: self.text@,
        }
    }
}

/// The six individual verdicts of an address check.
#[derive(Clone, Copy, Debug, PartialEq, Eq)]
pub struct Checks {
    pub is_disposable: bool,
    pub is_free_mail: bool,
    pub is_user_synonym: bool,
    pub valid_deliver: bool,
    pub valid_mx_record: bool,
    pub valid_syntax: bool,
}

impl Checks {
    /// Every one of the six verdicts is `true`.
    pub open spec fn all_true(self) -> bool {
        &&& self.is_disposable
        &&& self.is_free_mail
        &&& self.is_user_synonym
        &&& self.valid_deliver
        &&& self.valid_mx_record
        &&& self.valid_syntax
    }
}

/// The validity report that the service gives for an address.
#[derive(Clone, Debug, PartialEq, Eq)]
pub struct EmailAddressInfo {
    pub result: bool,
    pub source: String,
    pub email_address: String,
    pub has_user: String,
    pub has_real_user: String,
    pub has_domain: String,
    pub checks: Checks,
}

/// The mathematical content of an [`EmailAddressInfo`].
pub struct EmailAddressInfoView {
    pub result: bool,
    pub source: Seq<char>,
    pub email_address: Seq<char>,
    pub has_user: Seq<char>,
    pub has_real_user: Seq<char>,
    pub has_domain: Seq<char>,
    pub checks: Checks,
}

impl View for EmailAddressInfo {
    type V = EmailAddressInfoView;

    open spec fn view(&self) -> EmailAddressInfoView {
        EmailAddressInfoView {
            result: self.result,
            source: self.source@,
            email_address: self.email_address@,
            has_user: self.has_user@,
            has_real_user: self.has_real_user@,
            has_domain: self.has_domain@,
            checks: self.checks,
        }
    }
}

/// The report for `email`: the address is echoed twice, the three labels are
/// fixed words, and the overall result and every verdict are `true`.
pub open spec fn canned_report(email: Seq<char>) -> EmailAddressInfoView {
    EmailAddressInfoView {
        result: true,
        source: email,
        email_address: email,
        has_user: "User"@,
        has_real_user: "RealUser"@,
        has_domain: "Domain"@,
        checks: Checks {
            is_disposable: true,
            is_free_mail: true,
            is_user_synonym: true,
            valid_deliver: true,
            valid_mx_record: true,
            valid_syntax: true,
        },
    }
}

impl EmailAddressInfo {
    /// Builds the report for `email`. Nothing is looked up: the answer is the
    /// same favourable one for every address, the empty one included.
    pub fn for_address(email: &str) -> (info: EmailAddressInfo)
        ensures
            info@ == canned_report(email@),
            info.result,
            info.checks.all_true(),
            info.source@ == email@,
            info.email_address@ == email@,
    {
        EmailAddressInfo {
            result: true,
            source: String::from_str(email),
            email_address: String::from_str(email),
            has_user: String::from_str("User"),
            has_real_user: String::from_str("RealUser"),
            has_domain: String::from_str("Domain"),
            checks: Checks {
                is_disposable: true,
                is_free_mail: true,
                is_user_synonym: true,
                valid_deliver: true,
                valid_mx_record: true,
                valid_syntax: true,
            },
        }
    }
}

} // verus!
