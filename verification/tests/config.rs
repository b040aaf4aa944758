use imagefork::config::{AppConfig, PlanError, ServicePlan, REDIRECT_SERVICE};
use imagefork::error::{Error, InternalError};
use imagefork::redirect::{RedirectConfig, RedirectSettings};

fn config(minutes: Option<u32>) -> AppConfig {
    AppConfig {
        app_addr: "0.0.0.0:8000".to_string(),
        monitoring_addr: "0.0.0.0:9000".to_string(),
        core_pg_url: "postgres://localhost/imagefork".to_string(),
        redirect: minutes.map(|m| RedirectConfig {
            coherency_token_redis_url: "redis://localhost".to_string(),
            coherency_token_keepalive_minutes: m,
        }),
    }
}

#[test]
fn redirect_service_is_included_where_configured() {
    assert_eq!(
        config(Some(30)).plan(),
        Ok(ServicePlan {
            included_services: vec!["redirect"],
            redirect: RedirectSettings { redirect_token_keepalive_seconds: 1800 },
        })
    );
    assert_eq!(REDIRECT_SERVICE, "redirect");
}

#[test]
fn configuration_without_services_is_refused() {
    assert_eq!(config(None).plan(), Err(PlanError::NoServices));
    assert_eq!(
        PlanError::NoServices.into_error(),
        Error::InternalError(InternalError::SystemError(
            "No services were selected to be run in the app binding".to_string()
        ))
    );
}

#[test]
fn keepalive_that_does_not_fit_is_refused() {
    assert_eq!(config(Some(71_582_789)).plan(), Err(PlanError::KeepaliveTooLong));
    assert!(config(Some(71_582_788)).plan().is_ok());
    assert_eq!(
        PlanError::KeepaliveTooLong.into_error(),
        Error::InternalError(InternalError::SystemError(
            "The coherency token keepalive is too long".to_string()
        ))
    );
}
