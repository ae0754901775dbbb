//! Everything that can go wrong with a request, and the response that tells
//! the user about it.

use crate::text::{decimal, decimal_string};
use vstd::prelude::*;
use vstd::std_specs::convert::FromSpecImpl;
use vstd::string::StringExecFns;

verus! {

/// The header lines that every such response carries after its status.
pub const HEADERS: &'static str =
    "\r\nContent-Type: text/html; charset=utf-8\r\nContent-Language: da\r\n\r\n\r\n";

/// The line that asks the user to come back, put before the seconds to wait.
pub const RETRY_AFTER: &'static str = "\r\nRetry-After: ";

/// For how many seconds a user is asked to wait when the scoring service
/// cannot be reached.
pub const RETRY_SECONDS: u64 = 60;

/// What closes the detail of a failure.
pub const DETAIL_END: &'static str = "</pre>";

/// The message for a fault of this program or its surroundings, up to the detail.
pub const CRITICAL_SERVER_TEXT: &'static str =
    "Der skete en fejl på serveren, dette er en bug. Rapporter fejlen her: <a href=\"https://github.com/itzgoldenleonard/bullseyegolf-frontend-light/issues\">https://github.com/itzgoldenleonard/bullseyegolf-frontend-light/issues</a> <br> Inkluder følgende informationer i fejlrapporten: Sidens URL, denne fejlbesked: <pre>";

/// The message for a query string that cannot be read.
pub const INVALID_QUERY_STRING_TEXT: &'static str =
    "Der er en fejl i URL'en. Tjek at du har stavet den rigtigt og at du har fået det rigtige link. <br> URL'en burde ende med: <pre>....org/u?u=<u>brugernavn</u></pre>";

/// The message for a failure of the network of no known kind, up to the detail.
pub const NETWORK_TEXT: &'static str =
    "Der skete en ukendt netværksfejl, dette er muligvis en bug. Fejlbesked: <pre>";

/// The message for a scoring service that cannot be reached, up to the detail.
pub const BACKEND_CONNECTION_TEXT: &'static str =
    "Bullseyegolf light kunne ikke kommunikere med API serveren, prøv igen senere.<br>Fejlbesked:<pre>";

/// The message for a scoring service that answered with a failure, up to the detail.
pub const BACKEND_STATUS_TEXT: &'static str = "Der skete en fejl på API serveren. <pre>";

/// The message for a submission that does not say which hole it is for.
pub const REFERER_TEXT: &'static str =
    "Bullseyegolf light kunne ikke afgøre hvilket hul din notering skal indsendes til. <br><br> Dette kan ske hvis du har indsendt din notering uden at vælge et hul først. Hvis det er tilfældet, så gå til hullet du ønsker at indsende noteringen til og vælg 'Indsend notering' <br><br>Dette kan også ske hvis din browsers referrer policy er for streng. Bullseyegolf light bruger Referer til at afgøre hvor din notering skal sendes hen og virker derfor ikke hvis din referer policy er indstillet til 'no-referrer'. Indstillingen vil kun være sat til 'no-referrer' hvis du selv har gjort det. Du kan prøve med en anden browser, eller nulstille indstillingen.<br><a href=\"https://www.technipages.com/firefox-enable-disable-referrer/\">Hvis du bruger firefox kan du læse hvordan du gør her</a><br><a href=\"https://developer.chrome.com/blog/referrer-policy-new-chrome-default/#test-the-change-and-figure-out-if-this-will-impact-your-site\">Hvis du bruger chromium (chrome, edge, Samsung internet, brave, vivaldi, opera osv.) kan du læse hvordan du gør her</a>.";

/// The message for a submitted form that cannot be read, up to the detail.
pub const INVALID_FORM_TEXT: &'static str =
    "Dataen du har indsendt er ikke i det rigtige format, dette burde ikke ske. Luk siden og prøv igen.<br/> Fejlbesked:<pre>";

/// Why a request could not be served. The variants that carry a text carry
/// the detail of the failure as it is shown to the user.
#[derive(Debug, PartialEq, Eq)]
pub enum Error {
    /// The query string of the request cannot be read.
    InvalidQueryString,
    /// The network failed in a way of no known kind.
    Network(String),
    /// A submission does not say which page it came from.
    Referer,
    /// The submitted form cannot be read.
    InvalidForm(String),
    /// This program or its surroundings are at fault.
    CriticalServer(String),
    /// The scoring service cannot be reached.
    BackendConnection(String),
    /// The scoring service answered with a failure.
    BackendStatus(String),
}

/// What an [`Error`] stands for.
pub ghost enum ErrorView {
    InvalidQueryString,
    Network(Seq<char>),
    Referer,
    InvalidForm(Seq<char>),
    CriticalServer(Seq<char>),
    BackendConnection(Seq<char>),
    BackendStatus(Seq<char>),
}

impl View for Error {
    type V = ErrorView;

    open spec fn view(&self) -> ErrorView {
        match self {
            Error::InvalidQueryString => ErrorView::InvalidQueryString,
            Error::Network(detail) => ErrorView::Network(detail@),
            Error::Referer => ErrorView::Referer,
            Error::InvalidForm(detail) => ErrorView::InvalidForm(detail@),
            Error::CriticalServer(detail) => ErrorView::CriticalServer(detail@),
            Error::BackendConnection(detail) => ErrorView::BackendConnection(detail@),
            Error::BackendStatus(detail) => ErrorView::BackendStatus(detail@),
        }
    }
}

/// Who has to act on an error.
#[derive(Debug, Clone, Copy, PartialEq, Eq, Structural)]
pub enum ErrorClass {
    /// The user sent something that cannot be read.
    ClientInput,
    /// The scoring service cannot be reached; it may be later.
    UpstreamConnection,
    /// The scoring service was reached and failed.
    UpstreamFault,
    /// A defect of this program or its surroundings.
    Internal,
}

impl ErrorClass {
    /// The status that a response to an error of this class carries.
    pub open spec fn status(self) -> nat {
        match self {
            ErrorClass::ClientInput => 400,
            ErrorClass::UpstreamConnection => 503,
            ErrorClass::UpstreamFault => 502,
            ErrorClass::Internal => 500,
        }
    }
}

impl ErrorView {
    /// Who has to act on the error.
    pub open spec fn class(self) -> ErrorClass {
        match self {
            ErrorView::InvalidQueryString => ErrorClass::ClientInput,
            ErrorView::Referer => ErrorClass::ClientInput,
            ErrorView::InvalidForm(_) => ErrorClass::ClientInput,
            ErrorView::BackendConnection(_) => ErrorClass::UpstreamConnection,
            ErrorView::BackendStatus(_) => ErrorClass::UpstreamFault,
            ErrorView::Network(_) => ErrorClass::Internal,
            ErrorView::CriticalServer(_) => ErrorClass::Internal,
        }
    }

    /// The line that asks the user to come back later; only an error of the
    /// connection has one.
    pub open spec fn retry_line(self) -> Seq<char> {
        if self.class() == ErrorClass::UpstreamConnection {
            RETRY_AFTER@ + decimal(RETRY_SECONDS as nat)
        } else {
            Seq::empty()
        }
    }

    /// The message that tells the user what happened, with the detail of the
    /// failure where there is one.
    pub open spec fn message(self) -> Seq<char> {
        match self {
            ErrorView::InvalidQueryString => INVALID_QUERY_STRING_TEXT@,
            ErrorView::Referer => REFERER_TEXT@,
            ErrorView::Network(detail) => NETWORK_TEXT@ + detail + DETAIL_END@,
            ErrorView::InvalidForm(detail) => INVALID_FORM_TEXT@ + detail + DETAIL_END@,
            ErrorView::CriticalServer(detail) => CRITICAL_SERVER_TEXT@ + detail + DETAIL_END@,
            ErrorView::BackendConnection(detail) => BACKEND_CONNECTION_TEXT@ + detail + DETAIL_END@,
            ErrorView::BackendStatus(detail) => BACKEND_STATUS_TEXT@ + detail + DETAIL_END@,
        }
    }

    /// The whole response: the status of the error's class, the line that
    /// asks to come back where there is one, the headers, and the message.
    pub open spec fn response(self) -> Seq<char> {
        "Status: "@ + decimal(self.class().status()) + self.retry_line() + HEADERS@ + " "@
            + self.message()
    }
}

/// How a request to the scoring service failed, as the transport tells it.
/// More than one of the marks may be set.
#[derive(Debug, PartialEq, Eq)]
pub struct TransportFailure {
    /// The service answered with a status that is a failure.
    pub status: bool,
    /// The request could not be sent.
    pub request: bool,
    /// No connection could be made.
    pub connect: bool,
    /// A redirect could not be followed.
    pub redirect: bool,
    /// The request could not even be put together.
    pub builder: bool,
    /// The answer could not be read as what was asked for.
    pub decode: bool,
    /// The failure in words.
    pub message: String,
}

impl From<TransportFailure> for Error {
    /// Sorts a failure of the transport: a failing status first, then
    /// whatever kept the request from getting through, then what points to a
    /// defect, and what is left is a failure of the network of no known kind.
    fn from(failure: TransportFailure) -> (error: Error) {
        if failure.status {
            Error::BackendStatus(failure.message)
        } else if failure.request || failure.connect || failure.redirect {
            Error::BackendConnection(failure.message)
        } else if failure.builder || failure.decode {
            Error::CriticalServer(failure.message)
        } else {
            Error::Network(failure.message)
        }
    }
}

impl FromSpecImpl<TransportFailure> for Error {
    open spec fn obeys_from_spec() -> bool {
        true
    }

    open spec fn from_spec(failure: TransportFailure) -> Error {
        if failure.status {
            Error::BackendStatus(failure.message)
        } else if failure.request || failure.connect || failure.redirect {
            Error::BackendConnection(failure.message)
        } else if failure.builder || failure.decode {
            Error::CriticalServer(failure.message)
        } else {
            Error::Network(failure.message)
        }
    }
}

impl Error {
    /// Who has to act on this error.
    pub fn class(&self) -> (class: ErrorClass)
        ensures
            class == self@.class(),
    {
        match self {
            Error::InvalidQueryString => ErrorClass::ClientInput,
            Error::Referer => ErrorClass::ClientInput,
            Error::InvalidForm(_) => ErrorClass::ClientInput,
            Error::BackendConnection(_) => ErrorClass::UpstreamConnection,
            Error::BackendStatus(_) => ErrorClass::UpstreamFault,
            Error::Network(_) => ErrorClass::Internal,
            Error::CriticalServer(_) => ErrorClass::Internal,
        }
    }

    /// The status that the response to this error carries.
    pub fn status_code(&self) -> (status: u16)
        ensures
            status == self@.class().status(),
    {
        match self.class() {
            ErrorClass::ClientInput => 400,
            ErrorClass::UpstreamConnection => 503,
            ErrorClass::UpstreamFault => 502,
            ErrorClass::Internal => 500,
        }
    }

    /// The message that tells the user what happened.
    pub fn message(&self) -> (text: String)
        ensures
            text@ == self@.message(),
    {
        match self {
            Error::InvalidQueryString => String::from_str(INVALID_QUERY_STRING_TEXT),
            Error::Referer => String::from_str(REFERER_TEXT),
            Error::Network(detail) => with_detail(NETWORK_TEXT, detail),
            Error::InvalidForm(detail) => with_detail(INVALID_FORM_TEXT, detail),
            Error::CriticalServer(detail) => with_detail(CRITICAL_SERVER_TEXT, detail),
            Error::BackendConnection(detail) => with_detail(BACKEND_CONNECTION_TEXT, detail),
            Error::BackendStatus(detail) => with_detail(BACKEND_STATUS_TEXT, detail),
        }
    }

    /// The whole response that tells the user about this error, status and
    /// headers included.
    pub fn to_response(&self) -> (text: String)
        ensures
            text@ == self@.response(),
    {
        let mut text = String::from_str("Status: ");
        text.append(decimal_string(self.status_code() as u64).as_str());
        match self.class() {
            ErrorClass::UpstreamConnection => {
                let mut line = String::from_str(RETRY_AFTER);
                line.append(decimal_string(RETRY_SECONDS).as_str());
                text.append(line.as_str());
            },
            _ => {
            },
        }
        text.append(HEADERS);
        text.append(" ");
        text.append(self.message().as_str());
        text
    }
}

/// A message followed by the detail of the failure.
fn with_detail(message: &str, detail: &String) -> (text: String)
    ensures
        text@ == message@ + detail@ + DETAIL_END@,
{
    let mut text = String::from_str(message);
    text.append(detail.as_str());
    text.append(DETAIL_END);
    text
}

/// The status of a response goes by the class of the error alone, and tells
/// the classes apart: 400 for what the user sent, 503 and 502 for the scoring
/// service, unreachable or failing, and 500 for a defect.
pub proof fn lemma_status_reflects_class(error: ErrorView, other: ErrorView)
    ensures
        error.class().status() == 400 <==> (error is InvalidQueryString || error is Referer
            || error is InvalidForm),
        error.class().status() == 503 <==> error is BackendConnection,
        error.class().status() == 502 <==> error is BackendStatus,
        error.class().status() == 500 <==> (error is Network || error is CriticalServer),
        error.class().status() == other.class().status() <==> error.class() == other.class(),
{
}

} // verus!
