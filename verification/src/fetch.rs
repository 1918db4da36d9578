//! Receiving a package's body.
//!
//! The transfer itself is the caller's business. This module decides
//! whether a response is worth reading, and keeps the bytes and the count
//! that the caller shows as progress.

use vstd::prelude::*;

verus! {

/// Why a body could not be fetched. Every variant names the URL.
#[derive(Debug, PartialEq, Eq)]
pub enum FetchError {
    /// The transfer failed; `cause` is the transport's message.
    Http { url: String, cause: String },
    /// The server answered with a status outside 200..=299.
    Status { url: String, status: u16 },
    /// The response did not say how long its body is. Progress is always
    /// shown against a known total, so such a response is turned down.
    MissingLength { url: String },
}

/// The mathematical content of a [`FetchError`].
pub enum FetchErrorView {
    Http { url: Seq<char>, cause: Seq<char> },
    Status { url: Seq<char>, status: u16 },
    MissingLength { url: Seq<char> },
}

impl FetchErrorView {
    /// The URL that the failed request went to.
    pub open spec fn url(self) -> Seq<char> {
        match self {
            FetchErrorView::Http { url, .. } => url,
            FetchErrorView::Status { url, .. } => url,
            FetchErrorView::MissingLength { url } => url,
        }
    }
}

impl FetchErrorView {
    /// The failure in words. The URL is always part of it.
    pub open spec fn text(self) -> Seq<char> {
        match self {
            FetchErrorView::Http { url, cause } => "Failed to download "@ + url + ": "@ + cause,
            FetchErrorView::Status { url, .. } => "Failed to download "@ + url,
            FetchErrorView::MissingLength { url } => "Failed to get content length of "@ + url,
        }
    }
}

impl View for FetchError {
    type V = FetchErrorView;

    open spec fn view(&self) -> FetchErrorView {
        match self {
            FetchError::Http { url, cause } => FetchErrorView::Http { url: url@, cause: cause@ },
            FetchError::Status { url, status } => FetchErrorView::Status {
                url: url@,
                status: *status,
            },
            FetchError::MissingLength { url } => FetchErrorView::MissingLength { url: url@ },
        }
    }
}

impl FetchError {
    /// The failure in words, for the progress display.
    pub fn message(&self) -> (message: String)
        ensures
            message@ == self@.text(),
    {
        match self {
            FetchError::Http { url, cause } => {
                let mut message = "Failed to download ".to_owned();
                message.append(url.as_str());
                message.append(": ");
                message.append(cause.as_str());
                message
            },
            FetchError::Status { url, .. } => {
                let mut message = "Failed to download ".to_owned();
                message.append(url.as_str());
                message
            },
            FetchError::MissingLength { url } => {
                let mut message = "Failed to get content length of ".to_owned();
                message.append(url.as_str());
                message
            },
        }
    }
}

/// Whether an HTTP status reports success.
pub open spec fn is_success(status: u16) -> bool {
    200 <= status <= 299
}

/// What the head of a response means for the transfer: the length to
/// expect, or the reason to give up before any byte is read.
pub open spec fn accepted(url: Seq<char>, status: u16, content_length: Option<u64>) -> Result<
    u64,
    FetchErrorView,
> {
    if !is_success(status) {
        Err(FetchErrorView::Status { url, status })
    } else {
        match content_length {
            Some(total) => Ok(total),
            None => Err(FetchErrorView::MissingLength { url }),
        }
    }
}

/// A body on its way in: the length the server announced and the bytes
/// received so far.
pub struct Download {
    total: u64,
    body: Vec<u8>,
}

/// The mathematical content of a [`Download`].
pub struct DownloadView {
    pub total: u64,
    pub body: Seq<u8>,
}

impl View for Download {
    type V = DownloadView;

    closed spec fn view(&self) -> DownloadView {
        DownloadView { total: self.total, body: self.body@ }
    }
}

/// A started download or the reason there is none, as mathematical values.
pub open spec fn begun_view(r: Result<Download, FetchError>) -> Result<
    DownloadView,
    FetchErrorView,
> {
    match r {
        Ok(download) => Ok(download@),
        Err(e) => Err(e@),
    }
}

impl Download {
    /// Starts a download from the head of a response. A status outside
    /// 200..=299 is refused, and so is a response without a content length;
    /// otherwise the download starts empty, with the announced total.
    pub fn begin(url: &str, status: u16, content_length: Option<u64>) -> (begun: Result<
        Download,
        FetchError,
    >)
        ensures
            begun_view(begun) == match accepted(url@, status, content_length) {
                Ok(total) => Ok(DownloadView { total, body: Seq::empty() }),
                Err(e) => Err(e),
            },
    {
        if status < 200 || status > 299 {
            return Err(FetchError::Status { url: url.to_owned(), status });
        }
        match content_length {
            Some(total) => Ok(Download { total, body: Vec::new() }),
            None => Err(FetchError::MissingLength { url: url.to_owned() }),
        }
    }

    /// The length that the server announced.
    pub fn total(&self) -> (total: u64)
        ensures
            total == self@.total,
    {
        self.total
    }

    /// The number of bytes received so far.
    pub fn position(&self) -> (position: u64)
        ensures
            position == self@.body.len(),
    {
        self.body.len() as u64
    }

    /// Takes in the next chunk of the body and returns the new position,
    /// which never falls: it is the old one plus the chunk's length.
    pub fn receive(&mut self, chunk: &[u8]) -> (position: u64)
        ensures
            final(self)@.body == old(self)@.body + chunk@,
            final(self)@.total == old(self)@.total,
            position == old(self)@.body.len() + chunk@.len(),
    {
        let ghost before = self.body@;
        self.body.extend_from_slice(chunk);
        self.body.len() as u64
    }

    /// Ends the download and hands out everything received.
    pub fn finish(self) -> (body: Vec<u8>)
        ensures
            body@ == self@.body,
    {
        self.body
    }
}

} // verus!
