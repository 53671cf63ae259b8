//! The process-wide shared state aggregate.
//!
//! One `AppState` is created at startup, before the router is assembled,
//! and a reference-counted handle to it is cloned into every
//! request-handling task. It combines the hot-reloadable template store
//! with the database connection pool handle. The pool handle is
//! internally synchronized and is never replaced after construction; the
//! template store changes only through the defined reload operation.

use vstd::prelude::*;
use crate::templates::ParseError;
use crate::templates::RenderContext;
use crate::templates::RenderError;
use crate::templates::TemplateStore;
use crate::templates::accepted_up_to;
use crate::templates::accepts_template;
use crate::templates::builds_ok;
use crate::templates::reload_result;
use crate::templates::rendered;
use crate::templates::source_map;
use crate::transport::DeployMode;

verus! {

/// The opaque, clonable handle to the bounded pool of database
/// connections. It is owned externally and internally synchronized;
/// nothing in the core reads through it, so it is held whole and opaque.
/// The field is public so the process can wrap the pool it connected at
/// startup and unwrap it at the call sites of the data-access layer.
#[verifier::external_body]
pub struct PoolHandle {
    pub inner: sqlx::MySqlPool,
}

/// The single aggregate of shared resources: the template store and the
/// pooled database handle. Exactly one instance exists per running
/// process; it is built once at startup and lives until shutdown.
pub struct AppState {
    pub templates: TemplateStore,
    pub pool: PoolHandle,
}

impl AppState {
    /// Builds the one shared state for the process: the template sources
    /// must all compile, or startup fails with the offending file and no
    /// partial state is constructed. The pool handle is adopted as given
    /// and never replaced afterwards.
    pub fn new(pool: PoolHandle, sources: &Vec<(String, String)>) -> (r: Result<
        AppState,
        ParseError,
    >)
        ensures
            r is Ok <==> builds_ok(sources@),
            (r matches Ok(state) ==> state.templates@ == source_map(sources@) && state.pool
                == pool),
            (r matches Err(e) ==> exists|n: int|
                0 <= n < sources@.len() && accepted_up_to(sources@, n) && !accepts_template(
                    source_map(sources@.take(n)),
                    sources@[n].0@,
                    sources@[n].1@,
                ) && e.file@ == sources@[n].0@),
    {
        match TemplateStore::new(sources) {
            Ok(templates) => Ok(AppState { templates, pool }),
            Err(e) => Err(e),
        }
    }

    /// The one defined way the aggregate ever changes: an atomic reload
    /// of the template store. The pool handle survives untouched, and a
    /// failed reload leaves the templates exactly as they were.
    pub fn reload_templates(&mut self, sources: &Vec<(String, String)>) -> (r: Result<
        (),
        ParseError,
    >)
        ensures
            final(self).pool == old(self).pool,
            r is Ok <==> builds_ok(sources@),
            final(self).templates@ == reload_result(old(self).templates@, sources@),
            (r matches Err(_) ==> final(self).templates@ == old(self).templates@),
    {
        self.templates.reload(sources)
    }

    /// Renders a page template under shared access to the store: any
    /// number of request tasks may do this concurrently.
    pub fn render_page(&self, name: &str, ctx: &RenderContext) -> (r: Result<String, RenderError>)
        ensures
            !self.templates@.contains_key(name@) ==> (r matches Err(e) && e matches
                RenderError::UnknownTemplate { name: n } && n@ == name@),
            self.templates@.contains_key(name@) ==> (match r {
                Ok(text) => rendered(self.templates@, name@, ctx@) == Some(text@),
                Err(e) => rendered(self.templates@, name@, ctx@) is None && e is RenderFailed,
            }),
    {
        self.templates.render(name, ctx)
    }
}

/// Why startup is abandoned: the database cannot be reached, or a
/// template source does not compile. Either is fatal: the process serves
/// nothing rather than starting partially.
#[derive(Debug)]
pub enum StartupError {
    DatabaseUnreachable { message: String },
    TemplateParse { error: ParseError },
}

/// The startup gate: the process comes up with every resource in hand
/// or not at all. A failed database connection is fatal before the
/// templates are even considered; an unparseable template is fatal with
/// the offending file named; only when both are good is the one shared
/// state built.
pub fn bootstrap(pool: Result<PoolHandle, String>, sources: &Vec<(String, String)>) -> (r: Result<
    AppState,
    StartupError,
>)
    ensures
        (pool matches Err(m) ==> r matches Err(e) && e matches StartupError::DatabaseUnreachable {
            message,
        } && message == m),
        (pool matches Ok(p) ==> {
            &&& r is Ok <==> builds_ok(sources@)
            &&& (r matches Ok(state) ==> state.templates@ == source_map(sources@) && state.pool
                == p)
            &&& (r matches Err(e) ==> e matches StartupError::TemplateParse { error } && exists|
                n: int,
            |
                0 <= n < sources@.len() && accepted_up_to(sources@, n) && !accepts_template(
                    source_map(sources@.take(n)),
                    sources@[n].0@,
                    sources@[n].1@,
                ) && error.file@ == sources@[n].0@)
        }),
{
    match pool {
        Err(message) => Err(StartupError::DatabaseUnreachable { message }),
        Ok(p) => match AppState::new(p, sources) {
            Ok(state) => Ok(state),
            Err(error) => Err(StartupError::TemplateParse { error }),
        },
    }
}

/// The reload policy, decided by build mode alone: a development build
/// reloads the template sources once before serving a page render, a
/// production build never reloads after startup.
pub fn should_reload_templates(mode: &DeployMode) -> (b: bool)
    ensures
        b == (mode is Development),
{
    match mode {
        DeployMode::Development => true,
        DeployMode::Production => false,
    }
}

} // verus!
