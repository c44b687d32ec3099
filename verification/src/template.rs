//! Fills a template with the entries of a JSON object. The template
//! language is tera's, and so is the rendering: the library reads the
//! template, makes the context in which it is rendered, and says what the
//! outcome of the rendering comes to. The rendering itself is the caller's
//! to call, on the engine and the context that the library hands out.

use vstd::prelude::*;

verus! {

/// A JSON value, held as serde_json made it.
#[verifier::external_type_specification]
#[verifier::external_body]
pub struct ExJsonValue(serde_json::Value);

/// tera's engine, held as it is.
#[verifier::external_type_specification]
#[verifier::external_body]
pub struct ExTera(tera::Tera);

/// tera's context, held as it is.
#[verifier::external_type_specification]
#[verifier::external_body]
pub struct ExContext(tera::Context);

/// tera's error, held as it is.
#[verifier::external_type_specification]
#[verifier::external_body]
pub struct ExTeraError(tera::Error);

/// The keys of a JSON object in the order in which it lists them; none for
/// a value that is no object.
pub uninterp spec fn object_keys(content: serde_json::Value) -> Seq<Seq<char>>;

/// The names that a context binds.
pub uninterp spec fn context_keys(context: tera::Context) -> Set<Seq<char>>;

/// The names of the templates that an engine holds.
pub uninterp spec fn template_names(tera: tera::Tera) -> Set<Seq<char>>;

/// Whether an engine that holds no template takes the text `content` as
/// the template `name`: whether tera can parse it, and it leans on no other
/// template.
pub uninterp spec fn template_is_read(name: Seq<char>, content: Seq<char>) -> bool;

/// Calls `Tera::default`: an engine that holds no template.
#[verifier::external_body]
fn tera_default() -> (tera: tera::Tera)
    ensures
        template_names(tera) == Set::<Seq<char>>::empty(),
{
    tera::Tera::default()
}

/// Calls `Tera::add_raw_template` on an engine that holds no template yet.
/// Whether the template is taken then rests on its name and its text alone,
/// and the contract names that; a template that is taken is held by the
/// engine afterwards, and no other. tera's parser follows nested brackets
/// and blocks by recursion: how deep a template may nest is a matter of the
/// stack that the calling thread has, and is not spoken of here.
#[verifier::external_body]
fn tera_add_raw_template(tera: &mut tera::Tera, name: &str, content: &str) -> (added: Result<
    (),
    tera::Error,
>)
    requires
        template_names(*old(tera)) == Set::<Seq<char>>::empty(),
    ensures
        added is Ok == template_is_read(name@, content@),
        added is Ok ==> template_names(*final(tera)) == Set::<Seq<char>>::empty().insert(name@),
{
    tera.add_raw_template(name, content)
}

/// Calls `Context::new`: a context that binds nothing.
#[verifier::external_body]
fn context_new() -> (context: tera::Context)
    ensures
        context_keys(context) == Set::<Seq<char>>::empty(),
{
    tera::Context::new()
}

/// Hands out the entries of a JSON object, key by key; none for a value
/// that is no object.
#[verifier::external_body]
fn json_entries(content: &serde_json::Value) -> (entries: Vec<(String, serde_json::Value)>)
    ensures
        entries.len() == object_keys(*content).len(),
        forall|i: int| 0 <= i < entries.len() ==> (#[trigger] entries[i]).0@ == object_keys(*content)[i],
{
    match content {
        serde_json::Value::Object(object) => object.iter().map(|(k, v)| (k.clone(), v.clone())).collect(),
        _ => Vec::new(),
    }
}

/// Calls `Context::insert` with a JSON value: the context then binds the
/// key, too.
#[verifier::external_body]
fn context_insert(context: &mut tera::Context, key: &str, value: &serde_json::Value)
    ensures
        context_keys(*final(context)) == context_keys(*old(context)).insert(key@),
{
    context.insert(key, value)
}

/// The message of an error of tera, as its `Display` writes it.
#[verifier::external_body]
fn tera_error_text(error: &tera::Error) -> (text: String) {
    error.to_string()
}

/// Why a template could not be used.
#[derive(Debug, PartialEq, Eq)]
pub enum TemplateError {
    /// The template could not be read; the text says why.
    Parse(String),
    /// The template could not be rendered; the text says why.
    Render(String),
}

impl TemplateError {
    /// The message of this error.
    pub fn to_string(&self) -> (text: String)
        ensures
            text@ == match self {
                TemplateError::Parse(why) => why@,
                TemplateError::Render(why) => why@,
            },
    {
        match self {
            TemplateError::Parse(why) => why.clone(),
            TemplateError::Render(why) => why.clone(),
        }
    }
}

/// What a `TemplateError` holds, as the contracts speak of it.
pub enum TemplateErrorView {
    Parse(Seq<char>),
    Render(Seq<char>),
}

impl DeepView for TemplateError {
    type V = TemplateErrorView;

    open spec fn deep_view(&self) -> TemplateErrorView {
        match self {
            TemplateError::Parse(why) => TemplateErrorView::Parse(why@),
            TemplateError::Render(why) => TemplateErrorView::Render(why@),
        }
    }
}

/// What a rendering comes to: the text that the engine made, or a `Render`
/// error with the engine's message.
pub open spec fn render_outcome(answer: Result<Seq<char>, Seq<char>>) -> Result<
    Seq<char>,
    TemplateErrorView,
> {
    match answer {
        Ok(text) => Ok(text),
        Err(why) => Err(TemplateErrorView::Render(why)),
    }
}

/// View of an answer of the engine.
pub open spec fn text_result_view(answer: Result<String, String>) -> Result<Seq<char>, Seq<char>> {
    match answer {
        Ok(text) => Ok(text@),
        Err(why) => Err(why@),
    }
}

/// View of the result of a rendering.
pub open spec fn render_result_view(rendered: Result<String, TemplateError>) -> Result<
    Seq<char>,
    TemplateErrorView,
> {
    match rendered {
        Ok(text) => Ok(text@),
        Err(error) => Err(error.deep_view()),
    }
}

/// The name under which an engine holds the template of a `TemplateRender`.
pub const TEMPLATE_NAME: &'static str = "template";

/// A template together with the values that fill it.
pub struct TemplateRender {
    content: serde_json::Value,
    tera: tera::Tera,
}

impl TemplateRender {
    /// Reads `template`, to be filled with `content`. The template is
    /// read exactly where tera takes its text; where it does not, the
    /// error is a `Parse` error with tera's message.
    pub fn new(content: serde_json::Value, template: &str) -> (render: Result<Self, TemplateError>)
        ensures
            render is Ok == template_is_read(TEMPLATE_NAME@, template@),
            render matches Ok(r) ==> r.content() == content && template_names(r.loaded_engine())
                == Set::<Seq<char>>::empty().insert(TEMPLATE_NAME@),
            render matches Err(error) ==> error is Parse,
    {
        let mut tera = tera_default();
        match tera_add_raw_template(&mut tera, TEMPLATE_NAME, template) {
            Ok(()) => Self::loaded(content, tera, None),
            Err(error) => Self::loaded(content, tera, Some(tera_error_text(&error))),
        }
    }

    /// What reading a template comes to, given the engine and what it said
    /// to the template: the template with its content where the engine
    /// took it, or a `Parse` error that holds the engine's message.
    pub fn loaded(content: serde_json::Value, tera: tera::Tera, refusal: Option<String>) -> (render:
        Result<Self, TemplateError>)
        ensures
            match refusal {
                None => render matches Ok(r) && r.content() == content && r.loaded_engine() == tera,
                Some(why) => render matches Err(error) && error.deep_view()
                    == TemplateErrorView::Parse(why@),
            },
    {
        match refusal {
            None => Ok(TemplateRender { content, tera }),
            Some(why) => Err(TemplateError::Parse(why)),
        }
    }

    /// The engine that holds the template.
    pub closed spec fn loaded_engine(&self) -> tera::Tera {
        self.tera
    }

    /// The engine that holds the template, under the name `template`.
    pub fn engine(&self) -> (engine: &tera::Tera)
        ensures
            *engine == self.loaded_engine(),
    {
        &self.tera
    }

    /// The values that fill the template.
    pub closed spec fn content(&self) -> serde_json::Value {
        self.content
    }

    /// The context in which the template is rendered: it binds the keys of
    /// the content, where the content is an object, and nothing else.
    pub fn context(&self) -> (context: tera::Context)
        ensures
            context_keys(context) == object_keys(self.content()).to_set(),
    {
        let entries = json_entries(&self.content);
        let ghost keys = object_keys(self.content);
        let mut context = context_new();
        let mut i: usize = 0;
        assert(keys.take(0).to_set() =~= Set::<Seq<char>>::empty());
        while i < entries.len()
            invariant
                i <= entries.len(),
                entries.len() == keys.len(),
                forall|j: int| 0 <= j < entries.len() ==> (#[trigger] entries[j]).0@ == keys[j],
                context_keys(context) == keys.take(i as int).to_set(),
            decreases entries.len() - i,
        {
            context_insert(&mut context, entries[i].0.as_str(), &entries[i].1);
            proof {
                let head = keys.take(i + 1);
                assert(head =~= keys.take(i as int).push(keys[i as int]));
                assert(head.to_set() =~= keys.take(i as int).to_set().insert(keys[i as int])) by {
                    assert forall|k: Seq<char>| head.to_set().contains(k) implies keys.take(
                        i as int,
                    ).to_set().insert(keys[i as int]).contains(k) by {
                        let at = choose|at: int| 0 <= at < head.len() && head[at] == k;
                        if at < i {
                            assert(keys.take(i as int)[at] == k);
                        }
                    }
                    assert forall|k: Seq<char>|
                        keys.take(i as int).to_set().insert(keys[i as int]).contains(
                            k,
                        ) implies head.to_set().contains(k) by {
                        if k == keys[i as int] {
                            assert(head[i as int] == k);
                        } else {
                            let at = choose|at: int|
                                0 <= at < keys.take(i as int).len() && keys.take(i as int)[at]
                                    == k;
                            assert(head[at] == k);
                        }
                    }
                }
            }
            i += 1;
        }
        assert(keys.take(entries.len() as int) =~= keys);
        context
    }

    /// What a rendering comes to, given tera's answer to the rendering of
    /// the template `template` in the context of the content: the text that
    /// tera made, as it is, or a `Render` error that holds tera's message.
    ///
    /// The rendering itself is not called from here. tera panics where the
    /// arithmetic of a template leaves the range of the finite numbers, and
    /// nothing that can be tested beforehand rules that out.
    pub fn rendered(answer: Result<String, String>) -> (rendered: Result<String, TemplateError>)
        ensures
            render_result_view(rendered) == render_outcome(text_result_view(answer)),
    {
        match answer {
            Ok(text) => Ok(text),
            Err(why) => Err(TemplateError::Render(why)),
        }
    }
}

} // verus!
