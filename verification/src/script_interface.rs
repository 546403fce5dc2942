//! The correction layer: four text transformations keyed by the canonical
//! source name, provided either by the built-in rules or by a Luau script.

use vstd::prelude::*;
use vstd::string::StringExecFns;
use crate::correction::{
    built_in_public_url, built_in_relative_url, correct_identifier, corrected_identifier,
    public_url, relative_url,
};

verus! {

/// A Lua virtual machine of `mlua`.
#[verifier::external_type_specification]
#[verifier::external_body]
pub struct ExLua(mlua::Lua);

/// A handle to a function that lives in a Lua virtual machine.
#[verifier::external_type_specification]
#[verifier::external_body]
pub struct ExLuaFunction(mlua::Function);

/// The error type of `mlua`.
#[verifier::external_type_specification]
#[verifier::external_body]
pub struct ExLuaError(mlua::Error);

/// `mlua::Lua::new` creates a virtual machine with the safe subset of the
/// standard libraries loaded. Nothing is claimed of it. It panics where the
/// machine cannot be allocated.
#[verifier::external_body]
fn new_lua() -> mlua::Lua {
    mlua::Lua::new()
}

/// `mlua::Lua::load` followed by `mlua::Chunk::exec` compiles and runs a
/// chunk of source in the virtual machine. What the chunk does is up to the
/// chunk: nothing is claimed of the outcome, and a chunk that runs forever
/// keeps the call from returning.
#[verifier::external_body]
fn run_chunk(lua: &mlua::Lua, chunk: &[u8]) -> Result<(), mlua::Error> {
    lua.load(chunk).exec()
}

/// `mlua::Table::get` on the table of globals looks a global up by name and
/// converts it to a function handle: `None` where the global is nil, an error
/// where it is something else. Nothing is claimed of which it is.
#[verifier::external_body]
fn global_function(lua: &mlua::Lua, name: &str) -> Result<Option<mlua::Function>, mlua::Error> {
    lua.globals().get::<Option<mlua::Function>>(name)
}

/// `mlua::Function::call` calls a Lua function with the given texts as its
/// arguments and converts what it returns to a string. The function may do
/// anything a script can do, so nothing is claimed of the outcome, and one
/// that runs forever keeps the call from returning.
#[verifier::external_body]
fn call_function(function: &mlua::Function, args: Vec<&str>) -> Result<String, mlua::Error> {
    function.call::<String>(mlua::Variadic::from(args))
}

/// The text that `Debug` gives an `mlua::Error`.
#[verifier::external_body]
fn lua_error_text(error: &mlua::Error) -> String {
    format!("{:?}", error)
}

/// The names of the four functions that a correction script defines, in the
/// order in which they are looked up.
pub open spec fn required_functions() -> Seq<Seq<char>> {
    seq![
        "correct_relative_url"@,
        "correct_public_url"@,
        "correct_manga_identifier"@,
        "correct_chapter_identifier"@,
    ]
}

/// What the error for a missing function says.
pub open spec fn missing_function_message(name: Seq<char>) -> Seq<char> {
    "Missing function '"@ + name + "'"@
}

/// Why a correction script could not be loaded or run.
#[derive(Debug)]
pub enum ScriptError {
    /// The script lacks one of the four functions; the text names it.
    IncompleteError(String),
    /// Loading or running the script raised an error.
    RuntimeError(mlua::Error),
}

/// What a script error holds.
pub enum ScriptErrorView {
    IncompleteError(Seq<char>),
    RuntimeError(mlua::Error),
}

impl View for ScriptError {
    type V = ScriptErrorView;

    open spec fn view(&self) -> ScriptErrorView {
        match self {
            ScriptError::IncompleteError(detail) => ScriptErrorView::IncompleteError(detail@),
            ScriptError::RuntimeError(error) => ScriptErrorView::RuntimeError(*error),
        }
    }
}

/// What a correction returned, with texts for strings.
pub open spec fn answer_view(answer: Result<String, ScriptError>) -> Result<
    Seq<char>,
    ScriptErrorView,
> {
    match answer {
        Ok(text) => Ok(text@),
        Err(error) => Err(error@),
    }
}

/// `answer` may be what a correction returns where the built-in rules give
/// `expected`: the built-in rules return just that; a script may return any
/// text or fail with a runtime error.
pub open spec fn allowed_answer(
    built_in: bool,
    expected: Seq<char>,
    answer: Result<Seq<char>, ScriptErrorView>,
) -> bool {
    match answer {
        Ok(text) => built_in ==> text == expected,
        Err(error) => !built_in && error is RuntimeError,
    }
}

impl ScriptError {
    /// A description of the error for a reader.
    pub fn message(&self) -> (r: String)
        ensures
            self matches ScriptError::IncompleteError(detail) ==> r@ == "script is not complete: "@
                + detail@,
            self is RuntimeError ==> r@ == "error running script"@,
    {
        match self {
            ScriptError::IncompleteError(detail) => String::from_str("script is not complete: ").concat(
                detail.as_str(),
            ),
            ScriptError::RuntimeError(_) => String::from_str("error running script"),
        }
    }

    /// The error in full, as a log line shows it.
    pub fn detail(&self) -> (r: String)
        ensures
            self matches ScriptError::IncompleteError(detail) ==> r@ == "IncompleteError(\""@ + detail@
                + "\")"@,
    {
        match self {
            ScriptError::IncompleteError(detail) => String::from_str("IncompleteError(\"").concat(
                detail.as_str(),
            ).concat("\")"),
            ScriptError::RuntimeError(error) => String::from_str("RuntimeError(").concat(
                lua_error_text(error).as_str(),
            ).concat(")"),
        }
    }
}

/// The function that a script must define under `name`, given what the lookup
/// of that global returned.
pub fn require_function(name: &str, found: Result<Option<mlua::Function>, mlua::Error>) -> (r:
    Result<mlua::Function, ScriptError>)
    ensures
        match found {
            Ok(Some(function)) => r == Ok::<mlua::Function, ScriptError>(function),
            Ok(None) => r matches Err(ScriptError::IncompleteError(detail)) && detail@
                == missing_function_message(name@),
            Err(error) => r == Err::<mlua::Function, ScriptError>(ScriptError::RuntimeError(error)),
        },
{
    match found {
        Ok(Some(function)) => Ok(function),
        Ok(None) => Err(
            ScriptError::IncompleteError(String::from_str("Missing function '").concat(name).concat("'")),
        ),
        Err(error) => Err(ScriptError::RuntimeError(error)),
    }
}

/// A loaded correction script: its virtual machine and its four functions.
#[derive(Debug)]
pub struct LuaScript {
    pub lua: mlua::Lua,
    relative_url: mlua::Function,
    public_url: mlua::Function,
    manga_identifier: mlua::Function,
    chapter_identifier: mlua::Function,
}

/// What a loaded script holds.
pub struct ScriptView {
    pub lua: mlua::Lua,
    pub relative_url: mlua::Function,
    pub public_url: mlua::Function,
    pub manga_identifier: mlua::Function,
    pub chapter_identifier: mlua::Function,
}

impl View for LuaScript {
    type V = ScriptView;

    closed spec fn view(&self) -> ScriptView {
        ScriptView {
            lua: self.lua,
            relative_url: self.relative_url,
            public_url: self.public_url,
            manga_identifier: self.manga_identifier,
            chapter_identifier: self.chapter_identifier,
        }
    }
}

/// The texts of a list of arguments.
pub open spec fn argument_texts(args: Seq<&str>) -> Seq<Seq<char>> {
    args.map_values(|arg: &str| arg@)
}

impl LuaScript {
    /// The call that corrects a relative URL: the function of the script
    /// for it, and its arguments, the source name, the domain and the URL.
    pub fn relative_url_call<'a>(
        &'a self,
        source_name: &'a str,
        domain: &'a str,
        url: &'a str,
    ) -> (r: (&'a mlua::Function, Vec<&'a str>))
        ensures
            *r.0 == self@.relative_url,
            argument_texts(r.1@) == seq![source_name@, domain@, url@],
    {
        let args = vec![source_name, domain, url];
        assert(argument_texts(args@) =~= seq![source_name@, domain@, url@]);
        (&self.relative_url, args)
    }

    /// The call that corrects a public URL: the function of the script for
    /// it, and its arguments, the source name, the domain and the URL.
    pub fn public_url_call<'a>(
        &'a self,
        source_name: &'a str,
        domain: &'a str,
        url: &'a str,
    ) -> (r: (&'a mlua::Function, Vec<&'a str>))
        ensures
            *r.0 == self@.public_url,
            argument_texts(r.1@) == seq![source_name@, domain@, url@],
    {
        let args = vec![source_name, domain, url];
        assert(argument_texts(args@) =~= seq![source_name@, domain@, url@]);
        (&self.public_url, args)
    }

    /// The call that corrects the identifier of a manga: the function of
    /// the script for it, and its arguments, the source name and the
    /// relative URL.
    pub fn manga_identifier_call<'a>(&'a self, source_name: &'a str, current: &'a str) -> (r: (
        &'a mlua::Function,
        Vec<&'a str>,
    ))
        ensures
            *r.0 == self@.manga_identifier,
            argument_texts(r.1@) == seq![source_name@, current@],
    {
        let args = vec![source_name, current];
        assert(argument_texts(args@) =~= seq![source_name@, current@]);
        (&self.manga_identifier, args)
    }

    /// The call that corrects the identifier of a chapter: the function of
    /// the script for it, and its arguments, the source name and the path of
    /// the chapter.
    pub fn chapter_identifier_call<'a>(&'a self, source_name: &'a str, current: &'a str) -> (r: (
        &'a mlua::Function,
        Vec<&'a str>,
    ))
        ensures
            *r.0 == self@.chapter_identifier,
            argument_texts(r.1@) == seq![source_name@, current@],
    {
        let args = vec![source_name, current];
        assert(argument_texts(args@) =~= seq![source_name@, current@]);
        (&self.chapter_identifier, args)
    }
}

/// Where the corrections come from.
#[derive(Debug)]
enum Provider {
    BuiltIn,
    Script(LuaScript),
}

/// A provider of the four corrections.
#[derive(Debug)]
pub struct ScriptRuntime {
    provider: Provider,
}

impl View for ScriptRuntime {
    type V = Option<ScriptView>;

    /// The script that is loaded; none for the built-in rules.
    closed spec fn view(&self) -> Option<ScriptView> {
        match self.provider {
            Provider::BuiltIn => None,
            Provider::Script(script) => Some(script@),
        }
    }
}

impl Default for ScriptRuntime {
    /// The built-in rules.
    fn default() -> (r: Self)
        ensures
            r@ is None,
    {
        ScriptRuntime { provider: Provider::BuiltIn }
    }
}

/// The function that a script must define under `name`, given what the lookup
/// of that global returned.
pub open spec fn required(
    name: Seq<char>,
    found: Result<Option<mlua::Function>, mlua::Error>,
) -> Result<mlua::Function, ScriptErrorView> {
    match found {
        Ok(Some(function)) => Ok(function),
        Ok(None) => Err(ScriptErrorView::IncompleteError(missing_function_message(name))),
        Err(error) => Err(ScriptErrorView::RuntimeError(error)),
    }
}

/// The script that the lookups of the four functions give, in the order in
/// which they are required: the error of the first lookup that found no
/// function, or the script with the four functions.
pub open spec fn script_of(
    lua: mlua::Lua,
    relative_url: Result<Option<mlua::Function>, mlua::Error>,
    public_url: Result<Option<mlua::Function>, mlua::Error>,
    manga_identifier: Result<Option<mlua::Function>, mlua::Error>,
    chapter_identifier: Result<Option<mlua::Function>, mlua::Error>,
) -> Result<ScriptView, ScriptErrorView> {
    match required("correct_relative_url"@, relative_url) {
        Err(error) => Err(error),
        Ok(relative_url) => match required("correct_public_url"@, public_url) {
            Err(error) => Err(error),
            Ok(public_url) => match required("correct_manga_identifier"@, manga_identifier) {
                Err(error) => Err(error),
                Ok(manga_identifier) => match required(
                    "correct_chapter_identifier"@,
                    chapter_identifier,
                ) {
                    Err(error) => Err(error),
                    Ok(chapter_identifier) => Ok(
                        ScriptView {
                            lua,
                            relative_url,
                            public_url,
                            manga_identifier,
                            chapter_identifier,
                        },
                    ),
                },
            },
        },
    }
}

impl ScriptRuntime {
    /// The corrections are the built-in rules, not those of a script.
    pub open spec fn is_built_in(&self) -> bool {
        self@ is None
    }

    /// Whether the corrections are the built-in rules.
    pub fn built_in(&self) -> (r: bool)
        ensures
            r == self.is_built_in(),
    {
        match &self.provider {
            Provider::BuiltIn => true,
            Provider::Script(_) => false,
        }
    }

    /// The loaded script, where the corrections come from one.
    pub fn script(&self) -> (r: Option<&LuaScript>)
        ensures
            match r {
                Some(script) => self@ == Some(script@),
                None => self@ is None,
            },
    {
        match &self.provider {
            Provider::BuiltIn => None,
            Provider::Script(script) => Some(script),
        }
    }

    /// The provider that a script gives, from its virtual machine and what
    /// the lookups of the four functions returned. All four are required;
    /// the first that is missing, in the order relative URL, public URL,
    /// manga identifier, chapter identifier, is reported.
    pub fn from_lookups(
        lua: mlua::Lua,
        relative_url: Result<Option<mlua::Function>, mlua::Error>,
        public_url: Result<Option<mlua::Function>, mlua::Error>,
        manga_identifier: Result<Option<mlua::Function>, mlua::Error>,
        chapter_identifier: Result<Option<mlua::Function>, mlua::Error>,
    ) -> (r: Result<Self, ScriptError>)
        ensures
            match r {
                Ok(runtime) => script_of(
                    lua,
                    relative_url,
                    public_url,
                    manga_identifier,
                    chapter_identifier,
                ) matches Ok(script) && runtime@ == Some(script),
                Err(error) => script_of(
                    lua,
                    relative_url,
                    public_url,
                    manga_identifier,
                    chapter_identifier,
                ) == Err::<ScriptView, ScriptErrorView>(error@),
            },
    {
        let relative_url = match require_function("correct_relative_url", relative_url) {
            Ok(function) => function,
            Err(error) => {
                return Err(error);
            },
        };
        let public_url = match require_function("correct_public_url", public_url) {
            Ok(function) => function,
            Err(error) => {
                return Err(error);
            },
        };
        let manga_identifier = match require_function("correct_manga_identifier", manga_identifier) {
            Ok(function) => function,
            Err(error) => {
                return Err(error);
            },
        };
        let chapter_identifier = match require_function(
            "correct_chapter_identifier",
            chapter_identifier,
        ) {
            Ok(function) => function,
            Err(error) => {
                return Err(error);
            },
        };
        Ok(
            ScriptRuntime {
                provider: Provider::Script(
                    LuaScript { lua, relative_url, public_url, manga_identifier, chapter_identifier },
                ),
            },
        )
    }

    /// Runs a chunk of Luau source in a new virtual machine, looks the four
    /// corrections up among the globals that it defines, and makes the
    /// provider from what the lookups returned. Fails with `RuntimeError`
    /// where the chunk or a lookup raises an error, and with
    /// `IncompleteError` for the first of the four functions that the chunk
    /// leaves undefined.
    pub fn from_chunk(chunk: &[u8]) -> (r: Result<Self, ScriptError>)
        ensures
            r matches Ok(runtime) ==> !runtime.is_built_in(),
            r matches Err(ScriptError::IncompleteError(detail)) ==> exists|i: int|
                0 <= i < required_functions().len() && detail@ == missing_function_message(
                    #[trigger] required_functions()[i],
                ),
    {
        let lua = new_lua();
        match run_chunk(&lua, chunk) {
            Ok(()) => {},
            Err(error) => {
                return Err(ScriptError::RuntimeError(error));
            },
        }
        let relative_url = global_function(&lua, "correct_relative_url");
        let public_url = global_function(&lua, "correct_public_url");
        let manga_identifier = global_function(&lua, "correct_manga_identifier");
        let chapter_identifier = global_function(&lua, "correct_chapter_identifier");
        proof {
            assert(required_functions()[0] == "correct_relative_url"@);
            assert(required_functions()[1] == "correct_public_url"@);
            assert(required_functions()[2] == "correct_manga_identifier"@);
            assert(required_functions()[3] == "correct_chapter_identifier"@);
        }
        Self::from_lookups(lua, relative_url, public_url, manga_identifier, chapter_identifier)
    }

    /// The URL of a manga relative to its source, as the target ecosystem
    /// writes it.
    pub fn correct_relative_url(&self, source_name: &str, domain: &str, url: &str) -> (r: Result<
        String,
        ScriptError,
    >)
        ensures
            allowed_answer(
                self.is_built_in(),
                built_in_relative_url(source_name@, domain@, url@),
                answer_view(r),
            ),
    {
        match &self.provider {
            Provider::BuiltIn => Ok(relative_url(source_name, domain, url)),
            Provider::Script(script) => {
                let (function, args) = script.relative_url_call(source_name, domain, url);
                run(function, args)
            },
        }
    }

    /// The URL under which a reader finds the manga on the web.
    pub fn correct_public_url(&self, source_name: &str, domain: &str, url: &str) -> (r: Result<
        String,
        ScriptError,
    >)
        ensures
            allowed_answer(
                self.is_built_in(),
                built_in_public_url(source_name@, domain@, url@),
                answer_view(r),
            ),
    {
        match &self.provider {
            Provider::BuiltIn => Ok(public_url(source_name, domain, url)),
            Provider::Script(script) => {
                let (function, args) = script.public_url_call(source_name, domain, url);
                run(function, args)
            },
        }
    }

    /// The text from which the identifier of a manga is derived.
    pub fn correct_manga_identifier(&self, source_name: &str, current: &str) -> (r: Result<
        String,
        ScriptError,
    >)
        ensures
            allowed_answer(
                self.is_built_in(),
                corrected_identifier(source_name@, current@),
                answer_view(r),
            ),
    {
        match &self.provider {
            Provider::BuiltIn => Ok(correct_identifier(source_name, current)),
            Provider::Script(script) => {
                let (function, args) = script.manga_identifier_call(source_name, current);
                run(function, args)
            },
        }
    }

    /// The text from which the identifier of a chapter is derived.
    pub fn correct_chapter_identifier(&self, source_name: &str, current: &str) -> (r: Result<
        String,
        ScriptError,
    >)
        ensures
            allowed_answer(
                self.is_built_in(),
                corrected_identifier(source_name@, current@),
                answer_view(r),
            ),
    {
        match &self.provider {
            Provider::BuiltIn => Ok(correct_identifier(source_name, current)),
            Provider::Script(script) => {
                let (function, args) = script.chapter_identifier_call(source_name, current);
                run(function, args)
            },
        }
    }
}

/// Calls a function of the script and reports what it raised as a runtime
/// error.
fn run(function: &mlua::Function, args: Vec<&str>) -> (r: Result<String, ScriptError>)
    ensures
        r matches Err(error) ==> error is RuntimeError,
{
    script_answer(call_function(function, args))
}

/// What a correction returns, given what the call of its function in the
/// script returned: the text of the script, or what the script raised as a
/// runtime error.
pub fn script_answer(outcome: Result<String, mlua::Error>) -> (r: Result<String, ScriptError>)
    ensures
        match outcome {
            Ok(text) => r == Ok::<String, ScriptError>(text),
            Err(error) => r == Err::<String, ScriptError>(ScriptError::RuntimeError(error)),
        },
{
    match outcome {
        Ok(text) => Ok(text),
        Err(error) => Err(ScriptError::RuntimeError(error)),
    }
}

} // verus!
