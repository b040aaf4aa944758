//! The configuration of the program, and what it says is to be run.

use crate::error::{Error, InternalError};
use crate::redirect::{RedirectConfig, RedirectSettings};
use vstd::prelude::*;

verus! {

/// Where in the configuration a part of the program finds its settings.
pub trait ConfigInfo {
    /// The field that holds the settings.
    fn field() -> &'static str;

    /// What the settings are called in messages.
    fn name() -> &'static str;
}

/// The whole configuration.
#[derive(Debug, PartialEq, Eq)]
pub struct AppConfig {
    pub app_addr: String,
    pub monitoring_addr: String,
    pub core_pg_url: String,
    pub redirect: Option<RedirectConfig>,
}

/// The name under which the redirect service is listed.
pub const REDIRECT_SERVICE: &'static str = "redirect";

/// What is to be run.
#[derive(Debug, PartialEq, Eq)]
pub struct ServicePlan {
    /// The names of the services that are included, in the order in which
    /// they are mounted.
    pub included_services: Vec<&'static str>,
    /// The redirect handler's settings.
    pub redirect: RedirectSettings,
}

/// Why a configuration cannot be run.
#[derive(Clone, Copy, Debug, PartialEq, Eq, Structural)]
pub enum PlanError {
    /// No service is configured.
    NoServices,
    /// The keepalive is more minutes than there are seconds to count them
    /// in.
    KeepaliveTooLong,
}

impl PlanError {
    pub open spec fn text(self) -> Seq<char> {
        match self {
            PlanError::NoServices => "No services were selected to be run in the app binding"@,
            PlanError::KeepaliveTooLong => "The coherency token keepalive is too long"@,
        }
    }

    /// The error that the program ends with.
    pub fn into_error(self) -> (error: Error)
        ensures
            error is InternalError,
            error->InternalError_0 is SystemError,
            error->InternalError_0.detail() == self.text(),
    {
        match self {
            PlanError::NoServices => Error::InternalError(
                InternalError::from_text(
                    "No services were selected to be run in the app binding".to_owned(),
                ),
            ),
            PlanError::KeepaliveTooLong => Error::InternalError(
                InternalError::from_text("The coherency token keepalive is too long".to_owned()),
            ),
        }
    }
}

impl AppConfig {
    /// What the configuration asks to run. The redirect service is
    /// included where it is configured, with its keepalive in seconds; a
    /// configuration without any service is refused.
    pub fn plan(&self) -> (plan: Result<ServicePlan, PlanError>)
        ensures
            match self.redirect {
                None => plan == Err::<ServicePlan, PlanError>(PlanError::NoServices),
                Some(redirect) => if redirect.coherency_token_keepalive_minutes * 60 > u32::MAX {
                    plan == Err::<ServicePlan, PlanError>(PlanError::KeepaliveTooLong)
                } else {
                    &&& plan is Ok
                    &&& plan->Ok_0.included_services@ == seq![REDIRECT_SERVICE]
                    &&& plan->Ok_0.redirect.redirect_token_keepalive_seconds
                        == redirect.coherency_token_keepalive_minutes * 60
                },
            },
    {
        match &self.redirect {
            None => Err(PlanError::NoServices),
            Some(redirect) => match redirect.settings() {
                None => Err(PlanError::KeepaliveTooLong),
                Some(settings) => {
                    let mut included_services: Vec<&'static str> = Vec::new();
                    included_services.push(REDIRECT_SERVICE);
                    Ok(ServicePlan { included_services, redirect: settings })
                },
            },
        }
    }
}

} // verus!
