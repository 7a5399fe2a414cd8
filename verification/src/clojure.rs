//! Dispatch between the two execution targets and generation of the text
//! handed to the runtime: a one-time bootstrap snippet and a per-submission
//! evaluation form.

use crate::escape::escape_quotes;
use crate::escape::escaped;
use crate::escape::lemma_escape_round_trip;
use crate::escape::unescaped;
use vstd::prelude::*;
use vstd::string::StrSliceExecFns;
use vstd::string::StringExecFns;

verus! {

/// The two execution targets. They share one surface syntax; they differ in
/// standard library namespace and in how uncaught failures are reported, so
/// the generated evaluation text differs between them.
#[derive(Debug, Clone, Copy, PartialEq, Eq, Structural)]
pub enum Lang {
    Clojure,
    ClojureScript,
}

/// The one failure this library can report: a language tag that names
/// neither execution target.
#[derive(Debug, Clone, Copy, PartialEq, Eq, Structural)]
pub enum Error {
    ParseLangError,
}

impl Error {
    /// A human-readable description of the failure.
    pub fn message(&self) -> (r: &'static str)
        ensures
            r@ == "couldn't parse language, should be clj or cljs"@,
    {
        "couldn't parse language, should be clj or cljs"
    }
}

/// What a language tag resolves to: `"clj"` names Clojure, `"cljs"` names
/// ClojureScript, and any other tag — exact match, no trimming, no case
/// folding — resolves to nothing.
pub open spec fn resolve_spec(tag: Seq<char>) -> Option<Lang> {
    if tag == "clj"@ {
        Some(Lang::Clojure)
    } else if tag == "cljs"@ {
        Some(Lang::ClojureScript)
    } else {
        None
    }
}

/// Exact equality of two texts, compared character by character.
fn str_eq(a: &str, b: &str) -> (r: bool)
    ensures
        r == (a@ == b@),
{
    let an = a.unicode_len();
    let bn = b.unicode_len();
    if an != bn {
        return false;
    }
    let mut i: usize = 0;
    while i < an
        invariant
            an == a@.len(),
            an == b@.len(),
            i <= an,
            forall|j: int| 0 <= j < i ==> a@[j] == b@[j],
        decreases an - i,
    {
        if a.get_char(i) != b.get_char(i) {
            return false;
        }
        i = i + 1;
    }
    proof {
        assert(a@ =~= b@);
    }
    true
}

impl Lang {
    /// Resolves a session's language tag. Succeeds exactly on the two
    /// recognized tags and fails on everything else with the library's one
    /// error kind.
    pub fn from_tag(tag: &str) -> (r: Result<Lang, Error>)
        ensures
            match r {
                Ok(lang) => resolve_spec(tag@) == Some(lang),
                Err(e) => resolve_spec(tag@) is None && e == Error::ParseLangError,
            },
    {
        if str_eq(tag, "clj") {
            Ok(Lang::Clojure)
        } else if str_eq(tag, "cljs") {
            Ok(Lang::ClojureScript)
        } else {
            Err(Error::ParseLangError)
        }
    }
}

impl core::str::FromStr for Lang {
    type Err = Error;

    fn from_str(tag: &str) -> Result<Lang, Error> {
        Lang::from_tag(tag)
    }
}

/// Resolution is a total, deterministic mapping: each recognized tag names
/// its own target, and the two never coincide.
pub proof fn lemma_resolution_distinct()
    ensures
        resolve_spec("clj"@) == Some(Lang::Clojure),
        resolve_spec("cljs"@) == Some(Lang::ClojureScript),
        resolve_spec("clj"@) != resolve_spec("cljs"@),
{
    reveal_strlit("clj");
    reveal_strlit("cljs");
    assert("clj"@.len() == 3);
    assert("cljs"@.len() == 4);
}

/// The text of the bootstrap snippet, fixed once and for all. It caps
/// printed sequence length, requires the per-target help module and — for
/// Clojure — the stack-trace module, and ends in a "ready" message naming
/// the active target. Target selection happens inside the text itself,
/// through the runtime's reader conditionals, so one snippet serves both.
pub open spec fn bootstrap_text() -> Seq<char> {
    "\n    (set! *print-length* 50)\n    (require '#?(:clj clojure.repl, :cljs cljs.repl))\n    #?(:clj (require 'clojure.stacktrace))\n    (str \"Ready to evaluate \" #?(:clj \"Clojure\", :cljs \"ClojureScript\") \"!\")\n    "@
}

/// The one-time initialization snippet, submitted before any user code.
/// It takes no input and is deterministic: every call returns
/// `bootstrap_text()`, the same text each time.
pub fn bootstrap() -> (r: String)
    ensures
        r@ == bootstrap_text(),
{
    "\n    (set! *print-length* 50)\n    (require '#?(:clj clojure.repl, :cljs cljs.repl))\n    #?(:clj (require 'clojure.stacktrace))\n    (str \"Ready to evaluate \" #?(:clj \"Clojure\", :cljs \"ClojureScript\") \"!\")\n    ".to_owned()
}

/// The namespace-switching wrapper put around user code, the same for both
/// targets: `(clojure.core/in-ns '<ns>) <code>`, with the namespace and the
/// code inserted verbatim and a single space between the two parts.
pub open spec fn wrapped_text(code: Seq<char>, ns: Seq<char>) -> Seq<char> {
    "(clojure.core/in-ns '"@ + ns + ") "@ + code
}

/// The opening of the Clojure evaluation form, up to the escaped payload:
/// a try form that reads the payload back as data, with reader conditionals
/// allowed, inside an implicit do block, and evaluates it.
pub open spec fn clj_eval_prefix() -> Seq<char> {
    "\n            (try\n              (clojure.core/eval (clojure.core/read-string {:read-cond :allow} \"(do "@
}

/// The close of the Clojure evaluation form, after the escaped payload:
/// the catch clause that, on any Throwable, rebinds standard output to the
/// error channel, prints the stack trace and one trailing blank line.
pub open spec fn clj_eval_suffix() -> Seq<char> {
    ")\"))\n              (catch Throwable e\n                (binding [*out* *err*]\n                  (clojure.stacktrace/print-stack-trace e)\n                  (println))))\n            "@
}

/// The full text submitted for one evaluation. For Clojure, the wrapper
/// text is escaped and embedded in the fixed try/catch template; for
/// ClojureScript it is submitted as it stands, with no escaping and no
/// failure interception.
pub open spec fn eval_text(code: Seq<char>, ns: Seq<char>, lang: Lang) -> Seq<char> {
    match lang {
        Lang::Clojure => clj_eval_prefix() + escaped(wrapped_text(code, ns)) + clj_eval_suffix(),
        Lang::ClojureScript => wrapped_text(code, ns),
    }
}

/// Wraps one submission of user code for evaluation in the given namespace
/// on the given target. Total: any code and any namespace text are accepted
/// verbatim, and the result is exactly `eval_text`.
pub fn eval(code: &str, ns: &str, lang: &Lang) -> (r: String)
    ensures
        r@ == eval_text(code@, ns@, *lang),
{
    let mut wrapped = "(clojure.core/in-ns '".to_owned();
    wrapped.append(ns);
    wrapped.append(") ");
    wrapped.append(code);
    proof {
        assert(wrapped@ =~= wrapped_text(code@, ns@));
    }
    match lang {
        Lang::Clojure => {
            let payload = escape_quotes(wrapped.as_str());
            let mut out =
                "\n            (try\n              (clojure.core/eval (clojure.core/read-string {:read-cond :allow} \"(do ".to_owned();
            out.append(payload.as_str());
            out.append(
                ")\"))\n              (catch Throwable e\n                (binding [*out* *err*]\n                  (clojure.stacktrace/print-stack-trace e)\n                  (println))))\n            ",
            );
            proof {
                assert(out@ =~= eval_text(code@, ns@, *lang));
            }
            out
        },
        Lang::ClojureScript => wrapped,
    }
}

/// For a Clojure evaluation, the submitted text is the fixed template
/// around the escaped wrapper text, and unescaping that payload recovers
/// the wrapper text — namespace switch, space, user code — exactly.
pub proof fn lemma_eval_payload_round_trip(code: Seq<char>, ns: Seq<char>)
    ensures
        eval_text(code, ns, Lang::Clojure) == clj_eval_prefix() + escaped(
            wrapped_text(code, ns),
        ) + clj_eval_suffix(),
        unescaped(escaped(wrapped_text(code, ns))) == wrapped_text(code, ns),
{
    lemma_escape_round_trip(wrapped_text(code, ns));
}

} // verus!
