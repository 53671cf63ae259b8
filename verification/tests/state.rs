use my_cms::state::{bootstrap, AppState, PoolHandle, StartupError};
use my_cms::templates::{RenderContext, RenderError};

fn pairs(items: &[(&str, &str)]) -> Vec<(String, String)> {
    items.iter().map(|(n, s)| (n.to_string(), s.to_string())).collect()
}

fn runtime() -> tokio::runtime::Runtime {
    tokio::runtime::Builder::new_current_thread().enable_all().build().unwrap()
}

fn lazy_pool() -> PoolHandle {
    let inner = sqlx::MySqlPool::connect_lazy("mysql://dashboard@localhost/dashboard").unwrap();
    PoolHandle { inner }
}

#[test]
fn startup_builds_state_from_valid_templates() {
    let rt = runtime();
    let _guard = rt.enter();
    let sources = pairs(&[("home", "<h1>{{ title }}</h1>")]);
    let state = AppState::new(lazy_pool(), &sources).unwrap();
    let mut ctx = RenderContext::new();
    ctx.insert("title", "X");
    assert_eq!(state.render_page("home", &ctx).unwrap(), "<h1>X</h1>");
}

#[test]
fn startup_is_fatal_on_an_unparseable_template() {
    let rt = runtime();
    let _guard = rt.enter();
    let sources = pairs(&[("home", "{% if %}")]);
    match AppState::new(lazy_pool(), &sources) {
        Err(err) => assert_eq!(err.file, "home"),
        Ok(_) => panic!("startup must fail on an unparseable template"),
    }
}

#[test]
fn bootstrap_is_fatal_when_the_database_is_unreachable() {
    let sources = pairs(&[("home", "fine")]);
    match bootstrap(Err("connection refused".to_string()), &sources) {
        Err(StartupError::DatabaseUnreachable { message }) => {
            assert_eq!(message, "connection refused");
        },
        _ => panic!("an unreachable database must abandon startup"),
    }
}

#[test]
fn bootstrap_is_fatal_on_a_template_error_and_names_the_file() {
    let rt = runtime();
    let _guard = rt.enter();
    let sources = pairs(&[("home", "fine"), ("broken", "{% endif %}")]);
    match bootstrap(Ok(lazy_pool()), &sources) {
        Err(StartupError::TemplateParse { error }) => assert_eq!(error.file, "broken"),
        _ => panic!("an unparseable template must abandon startup"),
    }
}

#[test]
fn bootstrap_builds_the_state_when_everything_is_good() {
    let rt = runtime();
    let _guard = rt.enter();
    let sources = pairs(&[("home", "ready")]);
    let state = match bootstrap(Ok(lazy_pool()), &sources) {
        Ok(state) => state,
        Err(_) => panic!("startup must succeed with a reachable pool and valid templates"),
    };
    let ctx = RenderContext::new();
    assert_eq!(state.render_page("home", &ctx).unwrap(), "ready");
}

#[test]
fn reload_failure_keeps_the_prior_pages_serving() {
    let rt = runtime();
    let _guard = rt.enter();
    let sources = pairs(&[("home", "stable {{ title }}")]);
    let mut state = AppState::new(lazy_pool(), &sources).unwrap();
    let bad = pairs(&[("home", "{% endblock %}")]);
    let err = state.reload_templates(&bad).unwrap_err();
    assert_eq!(err.file, "home");
    let mut ctx = RenderContext::new();
    ctx.insert("title", "T");
    assert_eq!(state.render_page("home", &ctx).unwrap(), "stable T");
}

#[test]
fn reload_updates_pages_for_later_renders() {
    let rt = runtime();
    let _guard = rt.enter();
    let sources = pairs(&[("home", "before")]);
    let mut state = AppState::new(lazy_pool(), &sources).unwrap();
    let next = pairs(&[("home", "after")]);
    state.reload_templates(&next).unwrap();
    let ctx = RenderContext::new();
    assert_eq!(state.render_page("home", &ctx).unwrap(), "after");
}

#[test]
fn render_page_reports_unknown_names() {
    let rt = runtime();
    let _guard = rt.enter();
    let sources = pairs(&[("home", "hello")]);
    let state = AppState::new(lazy_pool(), &sources).unwrap();
    let ctx = RenderContext::new();
    match state.render_page("users", &ctx) {
        Err(RenderError::UnknownTemplate { name }) => assert_eq!(name, "users"),
        _ => panic!("expected an unknown-template error"),
    }
}
