use clojure_eval::clojure::Error;
use clojure_eval::clojure::Lang;
use clojure_eval::clojure::bootstrap;
use clojure_eval::clojure::eval;
use clojure_eval::escape::escape_quotes;

#[test]
fn resolves_clj_to_clojure() {
    assert_eq!(Lang::from_tag("clj"), Ok(Lang::Clojure));
    assert_eq!("clj".parse::<Lang>(), Ok(Lang::Clojure));
}

#[test]
fn resolves_cljs_to_clojurescript() {
    assert_eq!(Lang::from_tag("cljs"), Ok(Lang::ClojureScript));
    assert_eq!("cljs".parse::<Lang>(), Ok(Lang::ClojureScript));
}

#[test]
fn recognized_tags_resolve_to_distinct_variants() {
    let a = Lang::from_tag("clj").unwrap();
    let b = Lang::from_tag("cljs").unwrap();
    assert_ne!(a, b);
    assert_eq!(Lang::from_tag("clj").unwrap(), a);
    assert_eq!(Lang::from_tag("cljs").unwrap(), b);
}

#[test]
fn rejects_python_tag() {
    assert_eq!(Lang::from_tag("python"), Err(Error::ParseLangError));
}

#[test]
fn rejects_every_unrecognized_tag() {
    for tag in ["", " ", "clojure", "clojurescript", "CLJ", "Cljs", " clj", "cljs ", "cl", "cljx"] {
        assert_eq!(Lang::from_tag(tag), Err(Error::ParseLangError));
        assert!(tag.parse::<Lang>().is_err());
    }
}

#[test]
fn parse_error_message_names_both_tags() {
    let e = Lang::from_tag("jvm").unwrap_err();
    assert_eq!(e.message(), "couldn't parse language, should be clj or cljs");
}

#[test]
fn bootstrap_is_deterministic() {
    assert_eq!(bootstrap(), bootstrap());
}

#[test]
fn bootstrap_text_is_the_fixed_snippet() {
    assert_eq!(
        bootstrap(),
        "\n    (set! *print-length* 50)\n    (require '#?(:clj clojure.repl, :cljs cljs.repl))\n    #?(:clj (require 'clojure.stacktrace))\n    (str \"Ready to evaluate \" #?(:clj \"Clojure\", :cljs \"ClojureScript\") \"!\")\n    "
    );
}

#[test]
fn cljs_eval_is_the_bare_namespace_wrapper() {
    assert_eq!(
        eval("(+ 1 2)", "user", &Lang::ClojureScript),
        "(clojure.core/in-ns 'user) (+ 1 2)"
    );
}

#[test]
fn cljs_eval_passes_code_and_namespace_through_verbatim() {
    assert_eq!(
        eval("(println \"hi\")", "my.ns", &Lang::ClojureScript),
        "(clojure.core/in-ns 'my.ns) (println \"hi\")"
    );
    assert_eq!(eval("", "", &Lang::ClojureScript), "(clojure.core/in-ns ') ");
}

#[test]
fn clj_eval_embeds_the_wrapper_in_the_template() {
    assert_eq!(
        eval("(+ 1 2)", "user", &Lang::Clojure),
        "\n            (try\n              (clojure.core/eval (clojure.core/read-string {:read-cond :allow} \"(do (clojure.core/in-ns 'user) (+ 1 2))\"))\n              (catch Throwable e\n                (binding [*out* *err*]\n                  (clojure.stacktrace/print-stack-trace e)\n                  (println))))\n            "
    );
}

#[test]
fn clj_eval_escapes_quotes_in_the_payload() {
    assert_eq!(
        eval("(println \"hi\")", "user", &Lang::Clojure),
        "\n            (try\n              (clojure.core/eval (clojure.core/read-string {:read-cond :allow} \"(do (clojure.core/in-ns 'user) (println \\\"hi\\\"))\"))\n              (catch Throwable e\n                (binding [*out* *err*]\n                  (clojure.stacktrace/print-stack-trace e)\n                  (println))))\n            "
    );
}

#[test]
fn escape_quotes_leaves_quoteless_text_alone() {
    assert_eq!(escape_quotes(""), "");
    assert_eq!(escape_quotes("(+ 1 2)"), "(+ 1 2)");
    assert_eq!(escape_quotes("a\\b\nc"), "a\\b\nc");
}

#[test]
fn escape_quotes_backslashes_every_double_quote() {
    assert_eq!(escape_quotes("\""), "\\\"");
    assert_eq!(escape_quotes("say \"hi\" now"), "say \\\"hi\\\" now");
    assert_eq!(escape_quotes("\"\""), "\\\"\\\"");
    assert_eq!(escape_quotes("already \\\" escaped"), "already \\\\\" escaped");
}
