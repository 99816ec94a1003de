//! Reading what a finished program wrote, and building argument lists.
use vstd::prelude::*;
use crate::effect::{Invocation, InvocationV, OnFailure, Output, OutputV, push_text};
use crate::reply::text;
use crate::text::{chars_of, string_of, debug_quoted, debug_list, debug_list_text, debug_form, split, split_by, strings_of, lossy_text, push_all, replace_all, replaced, texts_of, trim, trimmed, utf8_lossy};

verus! {

/// The text of a run's standard output.
pub open spec fn out_text(o: OutputV) -> Seq<char> {
    utf8_lossy(o.stdout)
}

/// The text of a run's standard error.
pub open spec fn err_text(o: OutputV) -> Seq<char> {
    utf8_lossy(o.stderr)
}

/// The characters of a run's standard output.
pub fn out_chars(o: &Output) -> (r: Vec<char>)
    ensures
        r@ == out_text(o@),
{
    chars_of(lossy_text(o.stdout.as_slice()).as_str())
}

/// The characters of a run's standard error.
pub fn err_chars(o: &Output) -> (r: Vec<char>)
    ensures
        r@ == err_text(o@),
{
    chars_of(lossy_text(o.stderr.as_slice()).as_str())
}

/// `s` between square brackets.
pub open spec fn bracketed(s: Seq<char>) -> Seq<char> {
    seq!['['] + s + seq![']']
}

/// Podman output cleaned up for sending: trimmed, single quotes dropped and
/// a comma before a line break and a closing bracket removed.
pub open spec fn unquoted(s: Seq<char>) -> Seq<char> {
    replace_all(
        replace_all(trim(s), seq!['\''], seq![]),
        seq![',', '\n', ']'],
        seq![']'],
    )
}

/// A listing printed by podman as a run of `{...},` records, made into a
/// JSON list: bracketed, then cleaned up as `unquoted` states.
pub open spec fn listing(s: Seq<char>) -> Seq<char> {
    unquoted(bracketed(s))
}

/// `s` between square brackets.
pub fn bracket(s: &Vec<char>) -> (r: Vec<char>)
    ensures
        r@ == bracketed(s@),
{
    let mut r: Vec<char> = Vec::new();
    r.push('[');
    push_all(&mut r, s);
    r.push(']');
    assert(r@ =~= bracketed(s@));
    r
}

/// A listing made into a JSON list, as `listing` states.
pub fn listing_of(s: &Vec<char>) -> (r: Vec<char>)
    ensures
        r@ == listing(s@),
{
    unquoted_of(&bracket(s))
}

/// Podman output cleaned up for sending, as `unquoted` states.
pub fn unquoted_of(s: &Vec<char>) -> (r: Vec<char>)
    ensures
        r@ == unquoted(s@),
{
    let t = trimmed(s);
    let quote: Vec<char> = vec!['\''];
    let none: Vec<char> = Vec::new();
    let a = replaced(&t, &quote, &none);
    let tail: Vec<char> = vec![',', '\n', ']'];
    let close: Vec<char> = vec![']'];
    let r = replaced(&a, &tail, &close);
    assert(quote@ =~= seq!['\'']);
    assert(none@ =~= Seq::<char>::empty());
    assert(tail@ =~= seq![',', '\n', ']']);
    assert(close@ =~= seq![']']);
    r
}

/// The argument list `v` with `s` appended.
pub fn arg(v: Vec<String>, s: &str) -> (r: Vec<String>)
    ensures
        texts_of(r@) == texts_of(v@).push(s@),
{
    push_text(v, text(s))
}

/// An empty argument list.
pub fn no_args() -> (r: Vec<String>)
    ensures
        texts_of(r@) == Seq::<Seq<char>>::empty(),
{
    let r: Vec<String> = Vec::new();
    assert(texts_of(r@) =~= Seq::<Seq<char>>::empty());
    r
}

/// A run of `podman` with the arguments `args`.
pub open spec fn podman(args: Seq<Seq<char>>, on_failure: OnFailure) -> InvocationV {
    InvocationV { program: "podman"@, args, on_failure }
}

/// A run of `podman` with the arguments `args`.
pub fn podman_run(args: Vec<String>, on_failure: OnFailure) -> (r: Invocation)
    ensures
        r@ == podman(texts_of(args@), on_failure),
{
    Invocation { program: text("podman"), args, on_failure }
}

/// `s` without its last character, when it has one.
pub open spec fn popped(s: Seq<char>) -> Seq<char> {
    if s.len() > 0 {
        s.drop_last()
    } else {
        s
    }
}

/// The names podman printed one per line, read back from the `Debug` form
/// of its output: quotes dropped, each escaped line break made a comma, the
/// last character dropped, and the rest split at commas.
pub open spec fn printed_names(o: OutputV) -> Seq<Seq<char>> {
    split(
        popped(
            replace_all(
                replace_all(debug_form(out_text(o)), seq!['"'], seq![]),
                seq!['\\', 'n'],
                seq![','],
            ),
        ),
        seq![','],
    )
}

/// The names podman printed one per line, as `printed_names` states.
pub fn printed_names_of(o: &Output) -> (r: Vec<String>)
    ensures
        texts_of(r@) == printed_names(o@),
{
    let text = lossy_text(o.stdout.as_slice());
    let d = chars_of(debug_quoted(text.as_str()).as_str());
    let quote: Vec<char> = vec!['"'];
    let none: Vec<char> = Vec::new();
    let escaped: Vec<char> = vec!['\\', 'n'];
    let comma: Vec<char> = vec![','];
    assert(quote@ =~= seq!['"']);
    assert(none@ =~= Seq::<char>::empty());
    assert(escaped@ =~= seq!['\\', 'n']);
    assert(comma@ =~= seq![',']);
    let mut v = replaced(&replaced(&d, &quote, &none), &escaped, &comma);
    let ghost before = v@;
    v.pop();
    assert(v@ == popped(before));
    strings_of(&split_by(&v, &comma))
}

/// The body of a short list: `{"key":[...]}` with the names in their
/// `Debug` form, trimmed.
pub open spec fn short_list(key: Seq<char>, names: Seq<Seq<char>>) -> Seq<char> {
    trim(seq!['{', '"'] + key + seq!['"', ':'] + debug_list_text(names) + seq!['}'])
}

/// The body of a short list, as `short_list` states.
pub fn short_list_of(key: &str, names: &Vec<String>) -> (r: String)
    ensures
        r@ == short_list(key@, texts_of(names@)),
{
    let mut v: Vec<char> = vec!['{', '"'];
    push_all(&mut v, &chars_of(key));
    v.push('"');
    v.push(':');
    push_all(&mut v, &chars_of(debug_list(names).as_str()));
    v.push('}');
    assert(v@ =~= seq!['{', '"'] + key@ + seq!['"', ':'] + debug_list_text(texts_of(names@)) + seq!['}']);
    string_of(&trimmed(&v))
}

} // verus!
