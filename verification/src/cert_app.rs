//! The certificates view: the TLS certificate of an ingress host, and what its
//! keys do.
use crate::data::Cert;
use crate::keys::{Key, KeyInput};
use crate::pod_app::{moves_down, step_wf};
use crate::table::BaseTableState;
use crate::text::{int_decimal, owned, push_str};
use crate::time_util::asn1time_to_future_days_string;
use crate::ui_loop::{shows, Apps, Message, Step};
use vstd::prelude::*;
use x509_parser::time::ASN1Time;

verus! {

/// State of the certificates view.
#[derive(Clone, Debug)]
pub struct App {
    pub base: BaseTableState<Cert>,
}

impl App {
    /// A certificates view over `data_vec`.
    pub fn new(data_vec: Vec<Cert>) -> (r: Self)
        ensures
            r.base.is_fresh(data_vec),
    {
        App { base: BaseTableState::new(data_vec) }
    }

    /// Handles an event: `q`/Esc leave, `j`/`k` and the arrows move, `c` cycles
    /// the colours; fresh certificates replace the listed ones.
    pub fn handle_event(self, event: Message) -> (r: Step)
        requires
            self.base.wf(),
            event matches Message::Cert(v) ==> v@.len() * 25 <= usize::MAX,
            moves_down(false, event) ==> self.base.items@.len() > 0,
        ensures
            step_wf(r),
            match event {
                Message::Key(Some(k)) => match k.code {
                    Key::Char('q') | Key::Esc => r is Quit,
                    Key::Char('j') | Key::Down => shows(r, Apps::Cert { app: App { base: self.base.after_next() } }),
                    Key::Char('k') | Key::Up => shows(r, Apps::Cert { app: App { base: self.base.after_previous() } }),
                    Key::Char('c') | Key::Char('C') => shows(r, Apps::Cert { app: App { base: self.base.after_next_color() } }),
                    _ => shows(r, Apps::Cert { app: self }),
                },
                Message::Cert(v) => shows(r, Apps::Cert { app: App { base: self.base.with_items(v) } }),
                _ => shows(r, Apps::Cert { app: self }),
            },
    {
        let mut app = self;
        match event {
            Message::Key(Some(k)) => match k.code {
                Key::Char('q') | Key::Esc => Step::Quit,
                Key::Char('j') | Key::Down => {
                    app.base.next();
                    Step::Show(Apps::Cert { app })
                },
                Key::Char('k') | Key::Up => {
                    app.base.previous();
                    Step::Show(Apps::Cert { app })
                },
                Key::Char('c') | Key::Char('C') => {
                    app.base.next_color();
                    Step::Show(Apps::Cert { app })
                },
                _ => Step::Show(Apps::Cert { app }),
            },
            Message::Cert(v) => {
                app.base.set_items(v);
                Step::Show(Apps::Cert { app })
            },
            _ => Step::Show(Apps::Cert { app }),
        }
    }
}

/// The row of the certificate that `host` presented: the host, its validity as
/// `true` or `false`, the days left until it expires as `<days>d`, and its issuer.
pub fn cert_row(host: &str, is_valid: bool, expires: &ASN1Time, issued_by: String) -> (r: Cert)
    ensures
        r.host@ == host@,
        r.is_valid@ == (if is_valid {
            "true"@
        } else {
            "false"@
        }),
        exists|days: i64| r.expires@ == int_decimal(days as int) + "d"@,
        r.issued_by == issued_by,
{
    Cert {
        host: owned(host),
        is_valid: owned(if is_valid {
            "true"
        } else {
            "false"
        }),
        expires: asn1time_to_future_days_string(expires),
        issued_by,
    }
}

/// The error text when the certificate of `host` cannot be read.
pub fn cert_error_message(host: &str, error: &str) -> (s: String)
    ensures
        s@ == "host: "@ + host@ + " error: "@ + error@,
{
    let mut s = owned("host: ");
    push_str(&mut s, host);
    push_str(&mut s, " error: ");
    push_str(&mut s, error);
    s
}

} // verus!
