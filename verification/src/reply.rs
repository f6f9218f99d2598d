//! Responses that the flows give.

use axum_extra::extract::PrivateCookieJar;
use vstd::prelude::*;

use crate::jar;
use crate::jar::JarModel;

verus! {

/// The body of a response, or where it sends the browser.
#[derive(Debug)]
pub enum Body {
    /// An HTML page.
    Html(String),
    /// A temporary redirect to a URL.
    TemporaryRedirect(String),
}

/// A response: the changes to the cookies and the body.
pub struct Reply {
    pub jar: PrivateCookieJar,
    pub body: Body,
}

/// The mathematical counterpart of [`Body`].
pub enum BodyModel {
    Html(Seq<char>),
    TemporaryRedirect(Seq<char>),
}

/// The mathematical counterpart of [`Reply`].
pub struct ReplyModel {
    pub jar: JarModel,
    pub body: BodyModel,
}

impl View for Body {
    type V = BodyModel;

    open spec fn view(&self) -> BodyModel {
        match *self {
            Body::Html(page) => BodyModel::Html(page@),
            Body::TemporaryRedirect(url) => BodyModel::TemporaryRedirect(url@),
        }
    }
}

impl View for Reply {
    type V = ReplyModel;

    open spec fn view(&self) -> ReplyModel {
        ReplyModel { jar: jar::jar_model(self.jar), body: self.body@ }
    }
}

} // verus!
