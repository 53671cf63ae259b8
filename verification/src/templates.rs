//! The hot-reloadable template store.
//!
//! The store owns a tera engine holding named templates. Reads (renders)
//! take the store by shared reference and a reload takes it exclusively,
//! which is the many-readers-XOR-one-writer discipline the surrounding
//! process enforces with a reader/writer lock. A reload never edits the
//! engine in place: it compiles a fresh engine from the new sources and
//! swaps it in whole, so a reader sees either the prior set or the fully
//! updated one, never a mixture, and a reload that fails to compile
//! leaves the prior templates authoritative.

use vstd::prelude::*;

verus! {

#[verifier::external_type_specification]
#[verifier::external_body]
pub struct ExTera(tera::Tera);

#[verifier::external_type_specification]
#[verifier::external_body]
pub struct ExContext(tera::Context);

/// The named template sources an engine was built from, name to source.
pub uninterp spec fn engine_templates(engine: tera::Tera) -> Map<Seq<char>, Seq<char>>;

/// A value bound in a render context: plain text, or a structured value
/// (an array, map, number or nesting of them) described by its decoded
/// form. Keeping the two apart keeps a text that happens to look like
/// JSON distinct from the structure it would decode to.
pub enum BindingValue {
    Text(Seq<char>),
    Structured(Seq<char>),
}

/// The key-value bindings a context holds, key to value.
pub uninterp spec fn context_bindings(ctx: tera::Context) -> Map<Seq<char>, BindingValue>;

/// What a JSON text decodes to: `None` when the text is not valid JSON,
/// otherwise the decoded structured value, a function of the text alone.
pub uninterp spec fn decoded_json(text: Seq<char>) -> Option<Seq<char>>;

/// Whether an engine holding `templates` accepts one more template of
/// this name and source: the source must parse, and inheritance and
/// references must resolve against the templates already present.
pub uninterp spec fn accepts_template(
    templates: Map<Seq<char>, Seq<char>>,
    name: Seq<char>,
    source: Seq<char>,
) -> bool;

/// What rendering the named template against the given bindings produces
/// on an engine holding `templates`: the output text, or `None` when
/// rendering fails (say, a binding the template needs is missing).
pub uninterp spec fn rendered(
    templates: Map<Seq<char>, Seq<char>>,
    name: Seq<char>,
    bindings: Map<Seq<char>, BindingValue>,
) -> Option<Seq<char>>;

/// Relies on tera::Tera::new: a fresh engine holds no templates, no
/// fallback prefixes, and only the default built-in filters, tests and
/// functions, all of which compute from their inputs alone.
#[verifier::external_body]
fn new_engine() -> (engine: tera::Tera)
    ensures
        forall|name: Seq<char>| !engine_templates(engine).contains_key(name),
{
    tera::Tera::new()
}

/// Relies on tera::Tera::add_raw_template: it parses the source and
/// checks it against the templates already present; on success the
/// template is stored under its name, and on failure the engine is left
/// exactly as it was (the insertion is undone before the error returns).
#[verifier::external_body]
fn add_template(engine: &mut tera::Tera, name: &str, source: &str) -> (r: Result<(), String>)
    ensures
        r is Ok <==> accepts_template(engine_templates(*old(engine)), name@, source@),
        r is Ok ==> engine_templates(*final(engine)) == engine_templates(*old(engine)).insert(
            name@,
            source@,
        ),
        r is Err ==> engine_templates(*final(engine)) == engine_templates(*old(engine)),
{
    match engine.add_raw_template(name, source) {
        Ok(()) => Ok(()),
        Err(e) => Err(e.to_string()),
    }
}

/// Relies on tera::Tera::contains_template: with no fallback prefixes
/// configured it is an exact lookup among the stored template names.
#[verifier::external_body]
fn engine_contains(engine: &tera::Tera, name: &str) -> (b: bool)
    ensures
        b == engine_templates(*engine).contains_key(name@),
{
    engine.contains_template(name)
}

/// Relies on tera::Tera::render: an unknown name is always an error, and
/// otherwise the outcome is determined by the stored templates, the name
/// and the context bindings: every default built-in computes from its
/// inputs alone, and value maps preserve insertion order, so no
/// iteration order of the engine's own leaks into the output.
#[verifier::external_body]
fn render_from_engine(engine: &tera::Tera, name: &str, ctx: &tera::Context) -> (r: Result<
    String,
    String,
>)
    ensures
        !engine_templates(*engine).contains_key(name@) ==> r is Err,
        engine_templates(*engine).contains_key(name@) ==> (match r {
            Ok(text) => rendered(engine_templates(*engine), name@, context_bindings(*ctx))
                == Some(text@),
            Err(_) => rendered(engine_templates(*engine), name@, context_bindings(*ctx)) is None,
        }),
{
    match engine.render(name, ctx) {
        Ok(text) => Ok(text),
        Err(e) => Err(e.to_string()),
    }
}

/// Relies on tera::Context::new: a fresh context holds no bindings.
#[verifier::external_body]
fn new_context() -> (ctx: tera::Context)
    ensures
        forall|key: Seq<char>| !context_bindings(ctx).contains_key(key),
{
    tera::Context::new()
}

/// Relies on tera::Context::insert: the value is stored under the key,
/// replacing any previous value for it; a string value always serializes.
#[verifier::external_body]
fn context_insert(ctx: &mut tera::Context, key: &str, value: &str)
    ensures
        context_bindings(*final(ctx)) == context_bindings(*old(ctx)).insert(
            key@,
            BindingValue::Text(value@),
        ),
{
    ctx.insert(key.to_owned(), value)
}

/// Relies on serde_json::from_str, tera::Value::try_from_serializable
/// and tera::Context::insert_value: valid JSON text decodes to one
/// structured value, a function of the text alone, and that value is
/// stored under the key; text that does not decode leaves the context
/// untouched.
#[verifier::external_body]
fn context_insert_json(ctx: &mut tera::Context, key: &str, json: &str) -> (ok: bool)
    ensures
        ok == (decoded_json(json@) is Some),
        ok ==> context_bindings(*final(ctx)) == context_bindings(*old(ctx)).insert(
            key@,
            BindingValue::Structured(decoded_json(json@).unwrap()),
        ),
        !ok ==> context_bindings(*final(ctx)) == context_bindings(*old(ctx)),
{
    let decoded: serde_json::Value = match serde_json::from_str(json) {
        Ok(decoded) => decoded,
        Err(_) => return false,
    };
    match tera::Value::try_from_serializable(&decoded) {
        Ok(value) => {
            ctx.insert_value(key.to_owned(), value);
            true
        },
        Err(_) => false,
    }
}

/// The key-value bindings a render is given: the structured context the
/// template's placeholders draw from.
pub struct RenderContext {
    inner: tera::Context,
}

impl View for RenderContext {
    type V = Map<Seq<char>, BindingValue>;

    closed spec fn view(&self) -> Map<Seq<char>, BindingValue> {
        context_bindings(self.inner)
    }
}

impl RenderContext {
    /// An empty context.
    pub fn new() -> (ctx: Self)
        ensures
            ctx@ == Map::<Seq<char>, BindingValue>::empty(),
    {
        let inner = new_context();
        proof {
            assert(context_bindings(inner) =~= Map::<Seq<char>, BindingValue>::empty());
        }
        RenderContext { inner }
    }

    /// Binds the text `value` under `key`, replacing any previous
    /// binding for it.
    pub fn insert(&mut self, key: &str, value: &str)
        ensures
            final(self)@ == old(self)@.insert(key@, BindingValue::Text(value@)),
    {
        context_insert(&mut self.inner, key, value)
    }

    /// Binds the structured value the JSON text decodes to under `key`
    /// (an array of rows, say), replacing any previous binding for it.
    /// Text that is not valid JSON binds nothing and reports `false`.
    pub fn insert_serialized(&mut self, key: &str, json: &str) -> (ok: bool)
        ensures
            ok == (decoded_json(json@) is Some),
            ok ==> final(self)@ == old(self)@.insert(
                key@,
                BindingValue::Structured(decoded_json(json@).unwrap()),
            ),
            !ok ==> final(self)@ == old(self)@,
    {
        context_insert_json(&mut self.inner, key, json)
    }
}

/// A reload's report of the template that could not be compiled: the
/// offending file and the compiler's message.
#[derive(Debug)]
pub struct ParseError {
    pub file: String,
    pub message: String,
}

/// Why a render produced no output: the name is not in the store, or the
/// engine rejected the render (say, over a missing binding).
#[derive(Debug)]
pub enum RenderError {
    UnknownTemplate { name: String },
    RenderFailed { message: String },
}

/// The store the given sources compile to, name to source; a later
/// source under the same name replaces an earlier one.
pub open spec fn source_map(sources: Seq<(String, String)>) -> Map<Seq<char>, Seq<char>>
    decreases sources.len(),
{
    if sources.len() == 0 {
        Map::empty()
    } else {
        source_map(sources.drop_last()).insert(sources.last().0@, sources.last().1@)
    }
}

/// The first `n` sources each compile against the store built from the
/// sources before them.
pub open spec fn accepted_up_to(sources: Seq<(String, String)>, n: int) -> bool {
    forall|i: int|
        0 <= i < n ==> accepts_template(
            source_map(sources.take(i)),
            sources[i].0@,
            sources[i].1@,
        )
}

/// The whole source set compiles to a fresh engine.
pub open spec fn builds_ok(sources: Seq<(String, String)>) -> bool {
    accepted_up_to(sources, sources.len() as int)
}

/// The store a reload leaves behind: the fully compiled new set when all
/// sources build, the prior store untouched otherwise.
pub open spec fn reload_result(
    prior: Map<Seq<char>, Seq<char>>,
    sources: Seq<(String, String)>,
) -> Map<Seq<char>, Seq<char>> {
    if builds_ok(sources) {
        source_map(sources)
    } else {
        prior
    }
}

/// Compiles a fresh engine from the sources, stopping at the first
/// template the engine rejects.
fn build_engine(sources: &Vec<(String, String)>) -> (r: Result<tera::Tera, ParseError>)
    ensures
        r is Ok <==> builds_ok(sources@),
        (r matches Ok(engine) ==> engine_templates(engine) == source_map(sources@)),
        (r matches Err(e) ==> exists|n: int|
            0 <= n < sources@.len() && accepted_up_to(sources@, n) && !accepts_template(
                source_map(sources@.take(n)),
                sources@[n].0@,
                sources@[n].1@,
            ) && e.file@ == sources@[n].0@),
{
    let mut engine = new_engine();
    let mut i: usize = 0;
    proof {
        assert(sources@.take(0) =~= Seq::<(String, String)>::empty());
        assert(engine_templates(engine) =~= source_map(sources@.take(0)));
    }
    while i < sources.len()
        invariant
            0 <= i <= sources@.len(),
            accepted_up_to(sources@, i as int),
            engine_templates(engine) == source_map(sources@.take(i as int)),
        decreases sources@.len() - i,
    {
        let added = add_template(&mut engine, sources[i].0.as_str(), sources[i].1.as_str());
        match added {
            Ok(_) => {
                proof {
                    assert(sources@.take(i + 1).drop_last() =~= sources@.take(i as int));
                    assert(sources@.take(i + 1).last() == sources@[i as int]);
                }
                i = i + 1;
            },
            Err(message) => {
                proof {
                    let ghost n = i as int;
                    assert(!builds_ok(sources@)) by {
                        if builds_ok(sources@) {
                            assert(accepts_template(
                                source_map(sources@.take(n)),
                                sources@[n].0@,
                                sources@[n].1@,
                            ));
                        }
                    }
                }
                return Err(ParseError { file: sources[i].0.clone(), message });
            },
        }
    }
    proof {
        assert(sources@.take(sources@.len() as int) =~= sources@);
    }
    Ok(engine)
}

/// The hot-reloadable collection of named render templates.
///
/// Created once at startup from a directory's worth of sources; in a
/// development build it may be reloaded before serving a page, and in
/// production it is never touched again. Renders borrow the store
/// shared, a reload borrows it exclusively.
pub struct TemplateStore {
    engine: tera::Tera,
}

impl View for TemplateStore {
    type V = Map<Seq<char>, Seq<char>>;

    closed spec fn view(&self) -> Map<Seq<char>, Seq<char>> {
        engine_templates(self.engine)
    }
}

impl TemplateStore {
    /// Compiles the store from named sources. Startup fails on the first
    /// template that does not compile: no partial store is ever built.
    pub fn new(sources: &Vec<(String, String)>) -> (r: Result<TemplateStore, ParseError>)
        ensures
            r is Ok <==> builds_ok(sources@),
            (r matches Ok(store) ==> store@ == source_map(sources@)),
            (r matches Err(e) ==> exists|n: int|
                0 <= n < sources@.len() && accepted_up_to(sources@, n) && !accepts_template(
                    source_map(sources@.take(n)),
                    sources@[n].0@,
                    sources@[n].1@,
                ) && e.file@ == sources@[n].0@),
    {
        match build_engine(sources) {
            Ok(engine) => Ok(TemplateStore { engine }),
            Err(e) => Err(e),
        }
    }

    /// Whether a template of this name is in the store.
    pub fn contains(&self, name: &str) -> (b: bool)
        ensures
            b == self@.contains_key(name@),
    {
        engine_contains(&self.engine, name)
    }

    /// Atomically replaces the store's contents with the given sources.
    ///
    /// The new set is compiled on the side and swapped in whole, so the
    /// store moves from the prior set to the fully updated one in one
    /// step. If any source fails to compile, the error names the
    /// offending file and the prior templates remain authoritative.
    pub fn reload(&mut self, sources: &Vec<(String, String)>) -> (r: Result<(), ParseError>)
        ensures
            r is Ok <==> builds_ok(sources@),
            final(self)@ == reload_result(old(self)@, sources@),
            (r matches Err(e) ==> final(self)@ == old(self)@ && exists|n: int|
                0 <= n < sources@.len() && accepted_up_to(sources@, n) && !accepts_template(
                    source_map(sources@.take(n)),
                    sources@[n].0@,
                    sources@[n].1@,
                ) && e.file@ == sources@[n].0@),
    {
        match build_engine(sources) {
            Ok(engine) => {
                self.engine = engine;
                Ok(())
            },
            Err(e) => Err(e),
        }
    }

    /// Renders the named template against the context's bindings.
    ///
    /// A name not in the store is reported as `UnknownTemplate`; for a
    /// name in the store the engine's verdict is final, and a failure
    /// there (say, a missing binding) comes back as `RenderFailed`,
    /// never as a crash.
    pub fn render(&self, name: &str, ctx: &RenderContext) -> (r: Result<String, RenderError>)
        ensures
            !self@.contains_key(name@) ==> (r matches Err(e) && e matches
                RenderError::UnknownTemplate { name: n } && n@ == name@),
            self@.contains_key(name@) ==> (match r {
                Ok(text) => rendered(self@, name@, ctx@) == Some(text@),
                Err(e) => rendered(self@, name@, ctx@) is None && e is RenderFailed,
            }),
    {
        if !self.contains(name) {
            return Err(RenderError::UnknownTemplate { name: name.to_owned() });
        }
        complete_render(render_from_engine(&self.engine, name, &ctx.inner))
    }
}

/// Maps the engine's raw render outcome to the store's error type: the
/// text passes through on success, and a failure is contained as a
/// `RenderFailed` report.
pub fn complete_render(outcome: Result<String, String>) -> (r: Result<String, RenderError>)
    ensures
        (outcome matches Ok(text) ==> r matches Ok(t) && t == text),
        (outcome matches Err(m) ==> r matches Err(e) && e matches RenderError::RenderFailed {
            message,
        } && message == m),
{
    match outcome {
        Ok(text) => Ok(text),
        Err(message) => Err(RenderError::RenderFailed { message }),
    }
}

/// Template reload is atomic in effect: whatever sources a reload is
/// given, the store it leaves behind is the prior set or the fully
/// updated one, never a mixture. A render that reads the store around a
/// reload therefore completes against the pre-reload set or against the
/// fully updated one.
pub proof fn lemma_reload_atomic(
    prior: Map<Seq<char>, Seq<char>>,
    sources: Seq<(String, String)>,
    name: Seq<char>,
    bindings: Map<Seq<char>, BindingValue>,
)
    ensures
        reload_result(prior, sources) == prior || reload_result(prior, sources) == source_map(
            sources,
        ),
        rendered(reload_result(prior, sources), name, bindings) == rendered(
            prior,
            name,
            bindings,
        ) || rendered(reload_result(prior, sources), name, bindings) == rendered(
            source_map(sources),
            name,
            bindings,
        ),
{
}

/// A reload with a malformed template changes nothing: the prior, valid
/// templates remain fully usable, and every render against them is
/// exactly what it was before the attempt.
pub proof fn lemma_failed_reload_preserves_renders(
    prior: Map<Seq<char>, Seq<char>>,
    sources: Seq<(String, String)>,
    name: Seq<char>,
    bindings: Map<Seq<char>, BindingValue>,
)
    requires
        !builds_ok(sources),
    ensures
        reload_result(prior, sources) == prior,
        rendered(reload_result(prior, sources), name, bindings) == rendered(
            prior,
            name,
            bindings,
        ),
{
}

/// Repeated reloads with the same sources are idempotent in effect: a
/// second reload leaves the store exactly where the first did, so a
/// later render with identical name and context produces the same
/// output.
pub proof fn lemma_reload_idempotent(
    prior: Map<Seq<char>, Seq<char>>,
    sources: Seq<(String, String)>,
    name: Seq<char>,
    bindings: Map<Seq<char>, BindingValue>,
)
    ensures
        reload_result(reload_result(prior, sources), sources) == reload_result(prior, sources),
        rendered(reload_result(reload_result(prior, sources), sources), name, bindings)
            == rendered(reload_result(prior, sources), name, bindings),
{
}

} // verus!
