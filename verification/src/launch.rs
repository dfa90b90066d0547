//! What is asked of Launch Services, and what its answer means.

use crate::error::{OSStatus, OpenError};
use vstd::prelude::*;

verus! {

/// A launch as Launch Services takes it: the application, if one is named, the
/// URLs to open in it, if there are any, and the flags.
#[derive(Debug, PartialEq, Eq)]
pub struct LaunchSpec<A, U, F> {
    pub app: Option<A>,
    pub urls: Option<U>,
    pub flags: F,
}

/// A part of a launch that may be left out but, where it is given, must have
/// been converted. The outer level says whether the part was given, the inner
/// one whether its conversion succeeded.
pub open spec fn required<T>(part: Option<Option<T>>, fault: OpenError) -> Result<
    Option<T>,
    OpenError,
> {
    match part {
        None => Ok(None),
        Some(None) => Err(fault),
        Some(Some(url)) => Ok(Some(url)),
    }
}

/// The application of a launch.
///
/// `app` is `None` where no application was named, and holds what the
/// conversion of its path gave where one was: none is asked for in the first
/// case, and a path that gave no URL is an error.
pub fn remap_app<A>(app: Option<Option<A>>) -> (r: Result<Option<A>, OpenError>)
    ensures
        r == required(app, OpenError::InvalidApp),
{
    match app {
        None => Ok(None),
        Some(None) => Err(OpenError::InvalidApp),
        Some(url) => Ok(url),
    }
}

/// The URLs of a launch.
///
/// `urls` is `None` where no values were given, and holds what the conversion
/// of the list gave where some were: none are opened in the first case, and a
/// list that could not be converted is an error.
pub fn remap_multiopenable<U>(urls: Option<Option<U>>) -> (r: Result<Option<U>, OpenError>)
    ensures
        r == required(urls, OpenError::InvalidUrls),
{
    match urls {
        None => Ok(None),
        Some(None) => Err(OpenError::InvalidUrls),
        Some(list) => Ok(list),
    }
}

/// The launch that is asked for, or the reason why none is: a fault of the
/// application comes before a fault of the URLs.
pub open spec fn launch_spec<A, U, F>(
    app: Option<Option<A>>,
    urls: Option<Option<U>>,
    flags: F,
) -> Result<LaunchSpec<A, U, F>, OpenError> {
    match required(app, OpenError::InvalidApp) {
        Err(fault) => Err(fault),
        Ok(app) => match required(urls, OpenError::InvalidUrls) {
            Err(fault) => Err(fault),
            Ok(urls) => Ok(LaunchSpec { app, urls, flags }),
        },
    }
}

/// Puts together the launch to ask Launch Services for: the application alone
/// is opened where there are no URLs, the URLs are opened in the application
/// where both are there, and in their default handlers where no application
/// is named.
///
/// `app` and `urls` are what `remap_app` and `remap_multiopenable` take. What
/// Launch Services answers to the launch goes to `launched`.
pub fn open_complex<A, U, F>(app: Option<Option<A>>, urls: Option<Option<U>>, flags: F) -> (r:
    Result<LaunchSpec<A, U, F>, OpenError>)
    ensures
        r == launch_spec(app, urls, flags),
{
    let app = match remap_app(app) {
        Ok(app) => app,
        Err(fault) => {
            return Err(fault);
        },
    };
    let urls = match remap_multiopenable(urls) {
        Ok(urls) => urls,
        Err(fault) => {
            return Err(fault);
        },
    };
    Ok(LaunchSpec { app, urls, flags })
}

/// What a launch reports: what Launch Services opened, or its status as an
/// error.
pub open spec fn report<T>(outcome: Result<T, OSStatus>) -> Result<T, OpenError> {
    match outcome {
        Ok(opened) => Ok(opened),
        Err(code) => Err(OpenError::Status(code)),
    }
}

/// Turns the answer of Launch Services into the result of a launch.
///
/// `outcome` holds what was opened, or the status with which Launch Services
/// refused.
pub fn launched<T>(outcome: Result<T, OSStatus>) -> (r: Result<T, OpenError>)
    ensures
        r == report(outcome),
{
    match outcome {
        Ok(opened) => Ok(opened),
        Err(code) => Err(OpenError::Status(code)),
    }
}

/// The result of opening one value with its default handler.
///
/// `attempt` holds the answer of Launch Services. It is `None` where nothing
/// was asked of it because the value gave no URL, which is an error of its
/// own.
pub fn open<T>(attempt: Option<Result<T, OSStatus>>) -> (r: Result<T, OpenError>)
    ensures
        r == match attempt {
            None => Err(OpenError::NotOpenable),
            Some(outcome) => report(outcome),
        },
{
    match attempt {
        None => Err(OpenError::NotOpenable),
        Some(outcome) => launched(outcome),
    }
}

} // verus!
