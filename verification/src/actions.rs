//! The closed action vocabulary of the browser session, the page-state
//! snapshot an executed action produces, and the verified assembly of
//! that snapshot from the raw result of the one browser primitive each
//! action maps to.  Driving the real browser is the application's work.

use vstd::prelude::*;
use vstd::string::*;
use crate::errors::{ErrorS, ErrorType};

verus! {

#[derive(Debug, Clone, Copy, PartialEq, Eq, Structural)]
pub enum ScrollDirection {
    Up,
    Down,
    Left,
    Right,
}

/// Exactly one browser operation per instance.
#[derive(Debug)]
pub enum BrowserAction {
    Navigate { url: String },
    Click { selector: String },
    Scroll { direction: ScrollDirection, amount: i32 },
    ExtractText { selector: Option<String> },
    Screenshot,
    WaitForElement { selector: String, timeout: u64 },
    FillFrom { selector: String, value: String },
    ExecuteJs { script: String },
    GetPageState,
}

/// An element a user could interact with; attribute keys are unique.
#[derive(Debug)]
pub struct InteractiveElement {
    pub selector: String,
    pub element_type: String,
    pub text: Option<String>,
    pub attributes: Vec<(String, String)>,
}

impl InteractiveElement {
    /// Attribute keys are unique.
    pub open spec fn wf(&self) -> bool {
        forall|i: int, j: int|
            0 <= i < j < self.attributes@.len() ==> (#[trigger] self.attributes@[i]).0@ != (
            #[trigger] self.attributes@[j]).0@
    }
}

/// Snapshot of a tab after one executed action.  Only the fields the
/// action kind defines are populated.
#[derive(Debug)]
pub struct BrowserState {
    pub url: String,
    pub title: String,
    pub html: Option<String>,
    pub screenshot: Option<Vec<u8>>,
    pub extracted_text: Option<String>,
    pub error: Option<String>,
    pub interactive_elements: Vec<InteractiveElement>,
}

/// Only these actions mutate the page, and only they are followed by a
/// fixed settle delay; `GetPageState` and `ExtractText` never mutate.
pub open spec fn action_mutates(a: &BrowserAction) -> bool {
    match a {
        BrowserAction::Click { .. } => true,
        BrowserAction::Scroll { .. } => true,
        BrowserAction::FillFrom { .. } => true,
        _ => false,
    }
}

/// Whether executing `a` must pause for the fixed settle delay.
pub fn needs_settle_delay(a: &BrowserAction) -> (r: bool)
    ensures
        r == action_mutates(a),
{
    match a {
        BrowserAction::Click { .. } => true,
        BrowserAction::Scroll { .. } => true,
        BrowserAction::FillFrom { .. } => true,
        _ => false,
    }
}

/// The value the one primitive behind an action hands back.
#[derive(Debug)]
pub enum PrimitiveValue {
    /// The primitive succeeded without producing a value (navigation,
    /// click, scroll, wait, fill, script).
    Done,
    /// Extracted text, or the document content for a state read.
    Text(String),
    /// Captured screenshot bytes.
    Image(Vec<u8>),
}

impl BrowserState {
    /// A snapshot with only address, title and HTML populated.
    pub fn with_html(url: String, title: String, html: String) -> (r: BrowserState)
        ensures
            r.url@ == url@,
            r.title@ == title@,
            r.html matches Some(h) && h@ == html@,
            r.screenshot is None,
            r.extracted_text is None,
            r.error is None,
            r.interactive_elements@.len() == 0,
    {
        BrowserState {
            url,
            title,
            html: Some(html),
            screenshot: None,
            extracted_text: None,
            error: None,
            interactive_elements: Vec::new(),
        }
    }

    /// A snapshot with only address, title and extracted text
    /// populated: text extraction does not fetch HTML.
    pub fn with_extracted_text(url: String, title: String, text: String) -> (r: BrowserState)
        ensures
            r.url@ == url@,
            r.title@ == title@,
            r.extracted_text matches Some(t) && t@ == text@,
            r.html is None,
            r.screenshot is None,
            r.error is None,
            r.interactive_elements@.len() == 0,
    {
        BrowserState {
            url,
            title,
            html: None,
            screenshot: None,
            extracted_text: Some(text),
            error: None,
            interactive_elements: Vec::new(),
        }
    }

    /// A snapshot with only address, title and the captured screenshot
    /// bytes populated — the bytes are exactly what the capture
    /// returned, so they are non-empty whenever the capture was, and
    /// the HTML stays unset: a screenshot does not fetch HTML.
    pub fn with_screenshot(url: String, title: String, bytes: Vec<u8>) -> (r: BrowserState)
        ensures
            r.url@ == url@,
            r.title@ == title@,
            r.screenshot matches Some(b) && b@ == bytes@,
            bytes@.len() > 0 ==> (r.screenshot matches Some(b) && b@.len() > 0),
            r.html is None,
            r.extracted_text is None,
            r.error is None,
            r.interactive_elements@.len() == 0,
    {
        BrowserState {
            url,
            title,
            html: None,
            screenshot: Some(bytes),
            extracted_text: None,
            error: None,
            interactive_elements: Vec::new(),
        }
    }
}

/// Assemble the page state that executing `action` produces, from the
/// tab's address and title and the raw outcome of the one primitive
/// the action maps to.  A primitive failure surfaces as a retryable
/// browser error; a value of the wrong shape for the action does too.
/// Every branch returns a page state or a typed error — no silent
/// no-op.
pub fn execute_outcome(
    action: &BrowserAction,
    url: String,
    title: String,
    prim: Result<PrimitiveValue, String>,
) -> (r: Result<BrowserState, ErrorS>)
    ensures
        prim is Err ==> (r matches Err(e) && e.kind() == ErrorType::Browser && e.message()
            == prim->Err_0@),
        prim is Ok ==> match (action, prim->Ok_0) {
            (BrowserAction::Screenshot, PrimitiveValue::Image(b)) => r matches Ok(s) && s.url@
                == url@ && s.title@ == title@ && (s.screenshot matches Some(bb) && bb@ == b@)
                && s.html is None && s.extracted_text is None,
            (BrowserAction::ExtractText { .. }, PrimitiveValue::Text(t)) => r matches Ok(s)
                && s.url@ == url@ && s.title@ == title@ && (s.extracted_text matches Some(tt)
                && tt@ == t@) && s.html is None && s.screenshot is None,
            (BrowserAction::Screenshot, _) => r matches Err(e) && e.kind()
                == ErrorType::Browser,
            (BrowserAction::ExtractText { .. }, _) => r matches Err(e) && e.kind()
                == ErrorType::Browser,
            (_, PrimitiveValue::Text(h)) => r matches Ok(s) && s.url@ == url@ && s.title@
                == title@ && (s.html matches Some(hh) && hh@ == h@) && s.screenshot is None
                && s.extracted_text is None,
            (_, _) => r matches Err(e) && e.kind() == ErrorType::Browser,
        },
{
    match prim {
        Err(message) => Err(
            ErrorS::browser(String::from_str("BrowserSession::execute"), message),
        ),
        Ok(value) => match (action, value) {
            (BrowserAction::Screenshot, PrimitiveValue::Image(bytes)) => Ok(
                BrowserState::with_screenshot(url, title, bytes),
            ),
            (BrowserAction::ExtractText { .. }, PrimitiveValue::Text(text)) => Ok(
                BrowserState::with_extracted_text(url, title, text),
            ),
            (BrowserAction::Screenshot, _) => Err(
                ErrorS::browser(
                    String::from_str("BrowserSession::execute"),
                    String::from_str("screenshot primitive returned no image"),
                ),
            ),
            (BrowserAction::ExtractText { .. }, _) => Err(
                ErrorS::browser(
                    String::from_str("BrowserSession::execute"),
                    String::from_str("extraction primitive returned no text"),
                ),
            ),
            (_, PrimitiveValue::Text(html)) => Ok(BrowserState::with_html(url, title, html)),
            (_, _) => Err(
                ErrorS::browser(
                    String::from_str("BrowserSession::execute"),
                    String::from_str("primitive returned no page content"),
                ),
            ),
        },
    }
}

/// Map any raw delay drawn by the session into the bounded, randomized
/// settle interval that follows opening a tab: between 2000 and 5000
/// milliseconds, whatever the draw was.
pub fn settle_interval(raw: u64) -> (r: u64)
    ensures
        2000 <= r <= 5000,
{
    2000 + (raw % 3001)
}

} // verus!
