use vstd::prelude::*;
use vstd::string::*;
use crate::error::NotifyError;

verus! {

/// The application name announced to the notification daemon.
pub const APP_NAME: &'static str = "desktop-nfty";

/// The icon shown beside every daemon notification.
pub const ICON_NAME: &'static str = "dialog-information";

/// `b` holds a null byte.
pub open spec fn has_null(b: Seq<u8>) -> bool {
    exists|i: int| 0 <= i < b.len() && b[i] == 0
}

/// The null-terminated byte form of `s`, or `InvalidText` where `s` holds a
/// null byte (it would end the text early).
pub fn c_text(s: &str) -> (r: Result<Vec<u8>, NotifyError>)
    ensures
        match r {
            Ok(v) => !has_null(s.spec_bytes()) && v@ == s.spec_bytes().push(0),
            Err(e) => has_null(s.spec_bytes()) && e == NotifyError::InvalidText,
        },
{
    let b = s.as_bytes();
    let mut out: Vec<u8> = Vec::new();
    let mut i: usize = 0;
    while i < b.len()
        invariant
            b@ == s.spec_bytes(),
            i <= b@.len(),
            out@ == b@.take(i as int),
            forall|j: int| 0 <= j < i ==> b@[j] != 0,
        decreases b@.len() - i,
    {
        if b[i] == 0 {
            return Err(NotifyError::InvalidText);
        }
        out.push(b[i]);
        assert(out@ =~= b@.take(i + 1));
        i = i + 1;
    }
    assert(b@.take(i as int) =~= b@);
    out.push(0);
    Ok(out)
}

/// The null-terminated form of a constant that holds no null byte.
fn c_constant(s: &'static str) -> (r: Vec<u8>)
    requires
        !has_null(s.spec_bytes()),
    ensures
        r@ == s.spec_bytes().push(0),
{
    match c_text(s) {
        Ok(v) => v,
        Err(_) => Vec::new(),
    }
}

proof fn lemma_constants_hold_no_null()
    ensures
        !has_null(APP_NAME.spec_bytes()),
        !has_null(ICON_NAME.spec_bytes()),
{
    broadcast use vstd::string::group_string_axioms;

    reveal_strlit("desktop-nfty");
    reveal_strlit("dialog-information");
    assert(is_ascii(APP_NAME));
    assert(is_ascii(ICON_NAME));
}

/// What the daemon is handed for one notification: every text in its
/// null-terminated byte form.
#[derive(Debug, PartialEq, Eq)]
pub struct NotifyRequest {
    pub app_name: Vec<u8>,
    pub summary: Vec<u8>,
    pub body: Vec<u8>,
    pub icon: Vec<u8>,
}

/// The abstract content of a `NotifyRequest`.
pub struct NotifyRequestView {
    pub app_name: Seq<u8>,
    pub summary: Seq<u8>,
    pub body: Seq<u8>,
    pub icon: Seq<u8>,
}

impl View for NotifyRequest {
    type V = NotifyRequestView;

    open spec fn view(&self) -> NotifyRequestView {
        NotifyRequestView {
            app_name: self.app_name@,
            summary: self.summary@,
            body: self.body@,
            icon: self.icon@,
        }
    }
}

/// The request for a body and a title given as UTF-8 bytes.
pub open spec fn notify_request_of(text: Seq<u8>, title: Seq<u8>) -> NotifyRequestView {
    NotifyRequestView {
        app_name: APP_NAME.spec_bytes().push(0),
        summary: title.push(0),
        body: text.push(0),
        icon: ICON_NAME.spec_bytes().push(0),
    }
}

impl NotifyRequest {
    /// Builds the daemon request for body `text` and title `title`; fails
    /// with `InvalidText` exactly when either holds a null byte. No length
    /// limit applies.
    pub fn new(text: &str, title: &str) -> (r: Result<NotifyRequest, NotifyError>)
        ensures
            match r {
                Ok(q) => {
                    &&& !has_null(text.spec_bytes())
                    &&& !has_null(title.spec_bytes())
                    &&& q@ == notify_request_of(text.spec_bytes(), title.spec_bytes())
                },
                Err(e) => {
                    &&& has_null(text.spec_bytes()) || has_null(title.spec_bytes())
                    &&& e == NotifyError::InvalidText
                },
            },
    {
        let body = match c_text(text) {
            Ok(v) => v,
            Err(e) => return Err(e),
        };
        let summary = match c_text(title) {
            Ok(v) => v,
            Err(e) => return Err(e),
        };
        proof {
            lemma_constants_hold_no_null();
        }
        let app_name = c_constant(APP_NAME);
        let icon = c_constant(ICON_NAME);
        Ok(NotifyRequest { app_name, summary, body, icon })
    }
}

} // verus!
