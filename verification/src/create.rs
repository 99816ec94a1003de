//! What the create requests for containers, pods and networks share: the
//! options string that becomes podman arguments, the options that are never
//! passed on, and the answer to the create run.
use vstd::prelude::*;
use crate::effect::{Outcome, OutcomeV, push_text};
use crate::output::{err_chars, err_text, out_chars, out_text};
use crate::reply::{
    Body, BodyV, Reply, ReplyV, Scalar, ScalarV, fields_v, log_extra, log_of, message, message_body,
    record, record_with, refusal, refuse, text, with,
};
use crate::text::{
    begins_with, bytes_exceed, chars_of, debug_quoted, debug_form, push_all, replace_all, replaced,
    same_text, split, split_by, starts_with, string_of, texts_of, trim_end, trimmed_end, views_of,
};
use vstd::utf8::encode_utf8;

verus! {

/// One piece of the options string as an argument: pieces are split at
/// `,-`, so a piece that does not start with `--` gets its `-` back.
pub open spec fn option_word(piece: Seq<char>) -> Seq<char> {
    if starts_with(piece, seq!['-', '-']) {
        piece
    } else {
        seq!['-'] + piece
    }
}

/// The arguments an options string stands for: none for an empty string,
/// one per `,-` separated piece for a string of more than four bytes that
/// starts with `--`, and `None` (the request is refused) for anything else.
pub open spec fn option_args(options: Seq<char>) -> Option<Seq<Seq<char>>> {
    if encode_utf8(options).len() > 4 && starts_with(options, seq!['-', '-']) {
        Some(split(options, seq![',', '-']).map_values(|p: Seq<char>| option_word(p)))
    } else if options.len() == 0 {
        Some(seq![])
    } else {
        None
    }
}

/// `args` without the arguments that equal one of `banned`, in order.
pub open spec fn without(args: Seq<Seq<char>>, banned: Seq<Seq<char>>) -> Seq<Seq<char>>
    decreases args.len(),
{
    if args.len() == 0 {
        seq![]
    } else if banned.contains(args.last()) {
        without(args.drop_last(), banned)
    } else {
        without(args.drop_last(), banned).push(args.last())
    }
}

/// One piece of the options string as an argument, as `option_word` states.
fn option_word_of(piece: &Vec<char>) -> (r: String)
    ensures
        r@ == option_word(piece@),
{
    let dashes: Vec<char> = vec!['-', '-'];
    assert(dashes@ =~= seq!['-', '-']);
    if begins_with(piece, &dashes) {
        string_of(piece)
    } else {
        let mut v: Vec<char> = vec!['-'];
        push_all(&mut v, piece);
        assert(v@ =~= seq!['-'] + piece@);
        string_of(&v)
    }
}

/// The arguments of an options string, as `option_args` states.
pub fn option_args_of(options: &str) -> (r: Option<Vec<String>>)
    ensures
        match r {
            Some(v) => option_args(options@) == Some(texts_of(v@)),
            None => option_args(options@) is None,
        },
{
    let chars = chars_of(options);
    let dashes: Vec<char> = vec!['-', '-'];
    assert(dashes@ =~= seq!['-', '-']);
    if bytes_exceed(&chars, 4) && begins_with(&chars, &dashes) {
        let sep: Vec<char> = vec![',', '-'];
        assert(sep@ =~= seq![',', '-']);
        let pieces = split_by(&chars, &sep);
        let ghost want = split(options@, seq![',', '-']).map_values(|p: Seq<char>| option_word(p));
        let mut out: Vec<String> = Vec::new();
        let mut i: usize = 0;
        assert(texts_of(out@) =~= want.take(0));
        while i < pieces.len()
            invariant
                i <= pieces.len(),
                views_of(pieces@) == split(options@, seq![',', '-']),
                want == split(options@, seq![',', '-']).map_values(|p: Seq<char>| option_word(p)),
                texts_of(out@) == want.take(i as int),
            decreases pieces.len() - i,
        {
            let w = option_word_of(&pieces[i]);
            assert(pieces@[i as int]@ == views_of(pieces@)[i as int]);
            assert(want[i as int] == option_word(pieces@[i as int]@));
            out = crate::effect::push_text(out, w);
            assert(want.take(i as int).push(want[i as int]) =~= want.take(i + 1));
            i += 1;
        }
        assert(want.take(pieces.len() as int) =~= want);
        Some(out)
    } else if chars.len() == 0 {
        let out: Vec<String> = Vec::new();
        assert(texts_of(out@) =~= Seq::<Seq<char>>::empty());
        Some(out)
    } else {
        None
    }
}

/// Whether `s` is one of `banned`.
fn is_banned(s: &String, banned: &Vec<String>) -> (r: bool)
    ensures
        r == texts_of(banned@).contains(s@),
{
    let ghost bv = texts_of(banned@);
    let mut i: usize = 0;
    while i < banned.len()
        invariant
            i <= banned.len(),
            bv == texts_of(banned@),
            forall|k: int| 0 <= k < i ==> bv[k] != s@,
        decreases banned.len() - i,
    {
        if same_text(s.as_str(), banned[i].as_str()) {
            assert(bv[i as int] == s@);
            return true;
        }
        i += 1;
    }
    false
}

/// `args` without the arguments that equal one of `banned`, as `without`
/// states.
pub fn without_banned(args: Vec<String>, banned: &Vec<String>) -> (r: Vec<String>)
    ensures
        texts_of(r@) == without(texts_of(args@), texts_of(banned@)),
{
    let ghost bv = texts_of(banned@);
    let mut out: Vec<String> = Vec::new();
    let mut i: usize = 0;
    assert(texts_of(args@).take(0) =~= Seq::<Seq<char>>::empty());
    assert(texts_of(out@) =~= Seq::<Seq<char>>::empty());
    while i < args.len()
        invariant
            i <= args.len(),
            bv == texts_of(banned@),
            texts_of(out@) == without(texts_of(args@).take(i as int), bv),
        decreases args.len() - i,
    {
        assert(texts_of(args@).take(i + 1).drop_last() =~= texts_of(args@).take(i as int));
        assert(texts_of(args@).take(i + 1).last() == args@[i as int]@);
        if !is_banned(&args[i], banned) {
            out = crate::effect::push_text(out, args[i].clone());
        }
        i += 1;
    }
    assert(texts_of(args@).take(args.len() as int) =~= texts_of(args@));
    out
}

/// The answer to a create run for `kind` (as in "Successfully created
/// {kind}") whose log calls it `tag`: 201 with the trimmed identifier podman
/// printed, 400 with its error output when it printed nothing, and 500
/// when it could not be run.
pub open spec fn created(kind: Seq<char>, tag: Seq<char>, o: OutcomeV) -> ReplyV {
    match o {
        OutcomeV::Finished(out) => if out.stdout.len() > 0 {
            ReplyV {
                status: 201,
                body: BodyV::Object(
                    seq![
                        ("Code"@, ScalarV::Text("201"@)),
                        ("Info"@, ScalarV::Text("Successfully created "@ + kind)),
                        ("ID"@, ScalarV::Text(trim_end(out_text(out)))),
                        ("Status"@, ScalarV::Text("Created"@)),
                    ],
                ),
                log: log_extra(
                    201,
                    "Created"@,
                    0,
                    "POST"@,
                    " oCMAPICreateID="@ + debug_form(trim_end(out_text(out))) + " oCMAPICreateType="@
                        + tag,
                ),
            }
        } else {
            refusal(replace_all(trim_end(err_text(out)), seq!['\n'], seq![',', ' ']), "POST"@)
        },
        OutcomeV::Failed(e) => ReplyV {
            status: 500,
            body: message(500, trim_end(e), "Internal Server Error"@),
            log: log_of(500, "Internal Server Error"@, 6, "POST"@),
        },
    }
}

/// The answer to a create run, as `created` states.
pub fn created_reply(kind: &str, tag: &str, o: Outcome) -> (r: Reply)
    ensures
        r@ == created(kind@, tag@, o@),
{
    match o {
        Outcome::Finished(out) => {
            if out.stdout.len() > 0 {
                let id = string_of(&trimmed_end(&out_chars(&out)));
                let mut info = chars_of("Successfully created ");
                push_all(&mut info, &chars_of(kind));
                let mut extra = chars_of(" oCMAPICreateID=");
                push_all(&mut extra, &chars_of(debug_quoted(id.as_str()).as_str()));
                push_all(&mut extra, &chars_of(" oCMAPICreateType="));
                push_all(&mut extra, &chars_of(tag));
                let v = with(Vec::new(), "Code", Scalar::Text(text("201")));
                let v = with(v, "Info", Scalar::Text(string_of(&info)));
                let v = with(v, "ID", Scalar::Text(id));
                let v = with(v, "Status", Scalar::Text(text("Created")));
                assert(fields_v(v@) =~= seq![
                    ("Code"@, ScalarV::Text("201"@)),
                    ("Info"@, ScalarV::Text("Successfully created "@ + kind@)),
                    ("ID"@, ScalarV::Text(trim_end(out_text(out@)))),
                    ("Status"@, ScalarV::Text("Created"@)),
                ]);
                assert(extra@ =~= " oCMAPICreateID="@ + debug_form(trim_end(out_text(out@)))
                    + " oCMAPICreateType="@ + tag@);
                Reply {
                    status: 201,
                    body: Body::Object(v),
                    log: record_with(201, "Created", 0, "POST", string_of(&extra)),
                }
            } else {
                let sep: Vec<char> = vec!['\n'];
                let joiner: Vec<char> = vec![',', ' '];
                assert(sep@ =~= seq!['\n']);
                assert(joiner@ =~= seq![',', ' ']);
                let info = replaced(&trimmed_end(&err_chars(&out)), &sep, &joiner);
                refuse(string_of(&info).as_str(), "POST")
            }
        },
        Outcome::Failed(e) => Reply {
            status: 500,
            body: message_body(500, string_of(&trimmed_end(&chars_of(e.as_str()))), "Internal Server Error"),
            log: record(500, "Internal Server Error", 6, "POST"),
        },
    }
}

/// The argument list `a` followed by the arguments `more`.
pub fn appended(a: Vec<String>, more: &Vec<String>) -> (r: Vec<String>)
    ensures
        texts_of(r@) == texts_of(a@) + texts_of(more@),
{
    let ghost head = texts_of(a@);
    let mut a = a;
    let mut i: usize = 0;
    while i < more.len()
        invariant
            i <= more.len(),
            texts_of(a@) == head + texts_of(more@).take(i as int),
        decreases more.len() - i,
    {
        a = push_text(a, more[i].clone());
        assert(head + texts_of(more@).take(i + 1) =~= (head + texts_of(more@).take(i as int)).push(
            more@[i as int]@,
        ));
        i += 1;
    }
    assert(texts_of(more@).take(more.len() as int) =~= texts_of(more@));
    a
}

} // verus!
