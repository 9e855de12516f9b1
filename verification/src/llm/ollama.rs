//! The Ollama adapter's decision logic: resolving the configured model
//! against the server's tag listing, building the generation request,
//! turning the reply into an output, and the space-separated decimal codec
//! that carries the integer context through an environment variable.
//! The HTTP calls themselves happen outside and hand in their outcome.

use vstd::prelude::*;

use crate::config::BottConfig;
use crate::digits::{
    all_digits, char_digit_val, dec_step_overflows, dec_val, is_digit, lemma_dec_val_prefix,
    lemma_dec_val_u2dec, lemma_u2dec_digits, token_fits, token_val, u2dec, usize_to_dec,
};
use crate::errors::{BottError, BottOllamaError, BottResult};
use crate::extract::{extract_bash_block, extract_bash_spec};
use crate::llm::{
    debug_prompt_spec, debug_system_prompt_spec, get_debug_prompt, get_debug_system_prompt,
    get_query_system_prompt, query_system_prompt_spec, GenerateOutputOllama,
};
use crate::textutil::{
    find_from, find_spec, has_sub_at, lemma_find_spec_characterization, lemma_find_spec_exact,
    str_eq, str_to_chars, subvec, trim_spec, trim_str,
};

verus! {

/// One entry of the server's tag listing.
#[derive(Debug, PartialEq)]
pub struct ModelMetadata {
    pub name: String,
    pub size: usize,
}

/// The body of the tag-listing reply.
#[derive(Debug, PartialEq)]
pub struct ModelTags {
    pub models: Vec<ModelMetadata>,
}

/// The body of a generation request.
#[derive(Debug, PartialEq)]
pub struct GenerateRequest {
    pub model: String,
    pub prompt: String,
    pub stream: bool,
    pub system: String,
    pub context: Vec<usize>,
}

/// The body of a generation reply.
#[derive(Debug, PartialEq)]
pub struct GenerateResponse {
    pub model: String,
    pub response: String,
    pub context: Vec<usize>,
}

/// What came of an HTTP exchange: a parsed body, no connection, or a body
/// that did not parse.
#[derive(Debug)]
pub enum FetchOutcome<T> {
    Body(T),
    NotReachable,
    BadBody,
}

/// The configured model name appears in the tag listing.
pub open spec fn model_listed(tags: ModelTags, model: Seq<char>) -> bool {
    exists|j: int| 0 <= j < tags.models.len() && (#[trigger] tags.models[j]).name@ == model
}

/// Resolves the model to generate with: the configured name, provided the
/// server lists it. No generation request may be issued when this fails.
#[verifier::loop_isolation(false)]
pub fn get_model(outcome: &FetchOutcome<ModelTags>, config: &BottConfig) -> (r: BottResult<String>)
    ensures
        outcome is NotReachable ==> r == Err::<String, BottError>(
            BottError::Ollama(BottOllamaError::NotRunning),
        ),
        outcome is BadBody ==> r == Err::<String, BottError>(
            BottError::Ollama(BottOllamaError::InvalidResponse),
        ),
        outcome matches FetchOutcome::Body(tags) ==> match config.ollama_options {
            Some(o) => {
                if model_listed(*tags, o.model@) {
                    r matches Ok(m) && m@ == o.model@
                } else {
                    r matches Err(e) && e matches BottError::Ollama(
                        BottOllamaError::ModelUnavailable(m),
                    ) && m@ == o.model@
                }
            },
            None => r == Err::<String, BottError>(BottError::ConfigMissingKey),
        },
{
    match outcome {
        FetchOutcome::NotReachable => Err(BottError::Ollama(BottOllamaError::NotRunning)),
        FetchOutcome::BadBody => Err(BottError::Ollama(BottOllamaError::InvalidResponse)),
        FetchOutcome::Body(tags) => match &config.ollama_options {
            None => Err(BottError::ConfigMissingKey),
            Some(o) => {
                let chosen = o.model.clone();
                let n = tags.models.len();
                let mut i: usize = 0;
                while i < n
                    invariant
                        n == tags.models@.len(),
                        i <= n,
                        chosen@ == o.model@,
                        forall|j: int| 0 <= j < i ==> (#[trigger] tags.models@[j]).name@
                            != chosen@,
                    decreases n - i,
                {
                    if str_eq(tags.models[i].name.as_str(), chosen.as_str()) {
                        return Ok(chosen);
                    }
                    i = i + 1;
                }
                Err(BottError::Ollama(BottOllamaError::ModelUnavailable(chosen)))
            },
        },
    }
}

/// Builds the generation request. A debug call derives its prompts from
/// the executed command and its output and always starts from an empty
/// context; a query call sends the query itself with the carried context.
pub fn build_request(
    model: String,
    query: &str,
    distro: &str,
    shell: &str,
    debug: bool,
    debug_input: &str,
    debug_output: &str,
    context: Vec<usize>,
) -> (r: GenerateRequest)
    ensures
        r.model == model,
        r.stream == false,
        debug ==> r.prompt@ == debug_prompt_spec(debug_input@, debug_output@) && r.system@
            == debug_system_prompt_spec(distro@, shell@) && r.context@ == Seq::<usize>::empty(),
        !debug ==> r.prompt@ == query@ && r.system@ == query_system_prompt_spec(distro@, shell@)
            && r.context == context,
{
    if debug {
        GenerateRequest {
            model,
            prompt: get_debug_prompt(debug_input, debug_output),
            stream: false,
            system: get_debug_system_prompt(distro, shell),
            context: Vec::new(),
        }
    } else {
        GenerateRequest {
            model,
            prompt: String::from_str(query),
            stream: false,
            system: get_query_system_prompt(distro, shell),
            context,
        }
    }
}

/// Turns the outcome of the generation request into the backend output.
/// A debug reply is an explanation, not code: it is returned verbatim as
/// both the raw answer and the shell command. Otherwise the first fenced
/// bash block is extracted, and its absence yields an empty shell command,
/// never an error.
pub fn make_output(outcome: FetchOutcome<GenerateResponse>, debug: bool) -> (r: BottResult<
    GenerateOutputOllama,
>)
    ensures
        outcome is NotReachable ==> (r matches Err(e) && e == BottError::Ollama(
            BottOllamaError::NotRunning,
        )),
        outcome is BadBody ==> (r matches Err(e) && e == BottError::Ollama(
            BottOllamaError::InvalidResponse,
        )),
        outcome matches FetchOutcome::Body(resp) ==> (r matches Ok(o) && o.raw_answer@
            == resp.response@ && o.context == resp.context && (if debug {
            o.shell_command@ == resp.response@
        } else {
            match extract_bash_spec(resp.response@) {
                Some(c) => o.shell_command@ == c,
                None => o.shell_command@ == Seq::<char>::empty(),
            }
        })),
{
    match outcome {
        FetchOutcome::NotReachable => Err(BottError::Ollama(BottOllamaError::NotRunning)),
        FetchOutcome::BadBody => Err(BottError::Ollama(BottOllamaError::InvalidResponse)),
        FetchOutcome::Body(resp) => {
            if debug {
                let raw = resp.response;
                Ok(
                    GenerateOutputOllama {
                        raw_answer: raw.clone(),
                        shell_command: raw,
                        context: resp.context,
                    },
                )
            } else {
                let shell_command = match extract_bash_block(resp.response.as_str()) {
                    Some(code) => code,
                    None => String::new(),
                };
                Ok(
                    GenerateOutputOllama {
                        raw_answer: resp.response,
                        shell_command,
                        context: resp.context,
                    },
                )
            }
        },
    }
}

/// The integers of one space-separated token list, if every token is a
/// well-formed number that fits the machine word; the leading `+` the
/// standard integer parser tolerates is tolerated here too.
pub open spec fn parse_tokens(s: Seq<char>) -> Option<Seq<usize>>
    decreases s.len()
    via parse_tokens_decreases
{
    match find_spec(s, seq![' '], 0) {
        Option::None => if token_fits(s) {
            Option::Some(seq![token_val(s) as usize])
        } else {
            Option::None
        },
        Option::Some(i) => if token_fits(s.take(i)) {
            match parse_tokens(s.skip(i + 1)) {
                Option::Some(rest) => Option::Some(seq![token_val(s.take(i)) as usize] + rest),
                Option::None => Option::None,
            }
        } else {
            Option::None
        },
    }
}

#[via_fn]
proof fn parse_tokens_decreases(s: Seq<char>) {
    lemma_find_spec_characterization(s, seq![' '], 0);
}

/// The context carried in the environment: empty when the variable is
/// empty or opens with a space, as the split-on-space reading has it;
/// otherwise every token must parse.
pub open spec fn parse_ctx_spec(s: Seq<char>) -> Option<Seq<usize>> {
    if s.len() == 0 || s[0] == ' ' {
        Option::Some(Seq::<usize>::empty())
    } else {
        parse_tokens(s)
    }
}

/// Parses the characters `v[from..to]` as one decimal token.
fn parse_token(v: &Vec<char>, from: usize, to: usize) -> (r: Option<usize>)
    requires
        from <= to <= v@.len(),
    ensures
        token_fits(v@.subrange(from as int, to as int)) ==> (r matches Some(x) && x as nat
            == token_val(v@.subrange(from as int, to as int))),
        !token_fits(v@.subrange(from as int, to as int)) ==> r is None,
{
    let ghost t = v@.subrange(from as int, to as int);
    let mut k: usize = from;
    if k < to && v[k] == '+' {
        k = k + 1;
    }
    let dstart = k;
    let ghost digits = v@.subrange(dstart as int, to as int);
    proof {
        if t.len() >= 1 && t[0] == '+' {
            assert(digits =~= t.skip(1));
        } else {
            assert(digits =~= t);
        }
    }
    if dstart == to {
        return None;
    }
    let mut acc: usize = 0;
    while k < to
        invariant
            from <= dstart <= k <= to <= v@.len(),
            digits == v@.subrange(dstart as int, to as int),
            digits.len() >= 1,
            all_digits(digits.take(k - dstart)),
            acc as nat == dec_val(digits.take(k - dstart)),
            t == v@.subrange(from as int, to as int),
            (if t.len() >= 1 && t[0] == '+' {
                digits =~= t.skip(1)
            } else {
                digits =~= t
            }),
        decreases to - k,
    {
        let c = v[k];
        proof {
            assert(digits[k - dstart] == c);
        }
        match char_digit_val(c) {
            None => {
                return None;
            },
            Some(d) => {
                if dec_step_overflows(acc, d) {
                    proof {
                        assert(digits.take(k - dstart + 1).drop_last() =~= digits.take(
                            k - dstart,
                        ));
                        assert(dec_val(digits.take(k - dstart + 1)) > usize::MAX);
                        lemma_dec_val_prefix(digits, k - dstart + 1);
                    }
                    return None;
                }
                proof {
                    assert(digits.take(k - dstart + 1).drop_last() =~= digits.take(k - dstart));
                }
                acc = acc * 10 + d;
                k = k + 1;
            },
        }
    }
    proof {
        assert(digits.take((to - dstart) as int) =~= digits);
    }
    Some(acc)
}

/// Reads the integer context out of the carried environment string.
#[verifier::loop_isolation(false)]
pub fn get_context(context_env: &str) -> (r: Option<Vec<usize>>)
    ensures
        parse_ctx_spec(context_env@) matches Some(xs) ==> (r matches Some(v) && v@ == xs),
        parse_ctx_spec(context_env@) is None ==> r is None,
{
    let v = str_to_chars(context_env);
    let n = v.len();
    if n == 0 {
        return Some(Vec::new());
    }
    if v[0] == ' ' {
        return Some(Vec::new());
    }
    let mut sp: Vec<char> = Vec::new();
    sp.push(' ');
    proof {
        assert(sp@ =~= seq![' ']);
    }
    let mut rest = v;
    let mut acc: Vec<usize> = Vec::new();
    loop
        invariant
            sp@ == seq![' '],
            (match parse_tokens(rest@) {
                Option::Some(tail) => parse_tokens(context_env@) == Option::Some(acc@ + tail),
                Option::None => parse_tokens(context_env@) is None,
            }),
        decreases rest@.len(),
    {
        let rn = rest.len();
        match find_from(&rest, &sp, 0) {
            None => {
                match parse_token(&rest, 0, rn) {
                    Some(x) => {
                        proof {
                            assert(rest@.subrange(0, rn as int) =~= rest@);
                            assert(parse_tokens(rest@) == Option::Some(
                                seq![token_val(rest@) as usize],
                            ));
                            assert(seq![token_val(rest@) as usize] =~= seq![x]);
                        }
                        acc.push(x);
                        proof {
                            assert(acc@ =~= acc@.drop_last() + seq![x]);
                        }
                        return Some(acc);
                    },
                    None => {
                        proof {
                            assert(rest@.subrange(0, rn as int) =~= rest@);
                        }
                        return None;
                    },
                }
            },
            Some(i) => {
                proof {
                    lemma_find_spec_characterization(rest@, seq![' '], 0);
                    assert(has_sub_at(rest@, seq![' '], i as int));
                    assert(rest@.subrange(0, i as int) =~= rest@.take(i as int));
                }
                match parse_token(&rest, 0, i) {
                    None => {
                        return None;
                    },
                    Some(x) => {
                        let ghost old_acc = acc@;
                        let ghost old_rest = rest@;
                        acc.push(x);
                        let new_rest = subvec(&rest, i + 1, rn);
                        proof {
                            assert(new_rest@ =~= old_rest.skip(i + 1));
                            assert(seq![token_val(old_rest.take(i as int)) as usize] =~= seq![x]);
                            match parse_tokens(new_rest@) {
                                Option::Some(t2) => {
                                    assert(parse_tokens(old_rest) == Option::Some(seq![x] + t2));
                                    assert(old_acc + (seq![x] + t2) =~= acc@ + t2);
                                },
                                Option::None => {},
                            }
                        }
                        rest = new_rest;
                    },
                }
            },
        }
    }
}

/// The space-separated decimal rendering of the context, as it is handed
/// back through the environment.
pub open spec fn fmt_ctx_spec(xs: Seq<usize>) -> Seq<char>
    decreases xs.len()
{
    if xs.len() == 0 {
        Seq::<char>::empty()
    } else if xs.len() == 1 {
        u2dec(xs[0] as nat)
    } else {
        u2dec(xs[0] as nat) + seq![' '] + fmt_ctx_spec(xs.drop_first())
    }
}

proof fn lemma_fmt_push(xs: Seq<usize>, y: usize)
    requires
        xs.len() >= 1,
    ensures
        fmt_ctx_spec(xs.push(y)) == fmt_ctx_spec(xs) + seq![' '] + u2dec(y as nat),
    decreases xs.len()
{
    if xs.len() == 1 {
        assert(xs.push(y).drop_first() =~= seq![y]);
        assert(fmt_ctx_spec(seq![y]) == u2dec(y as nat));
        assert(xs.push(y)[0] == xs[0]);
    } else {
        lemma_fmt_push(xs.drop_first(), y);
        assert(xs.push(y).drop_first() =~= xs.drop_first().push(y));
        assert(xs.push(y)[0] == xs[0]);
        assert(u2dec(xs[0] as nat) + seq![' '] + (fmt_ctx_spec(xs.drop_first()) + seq![' ']
            + u2dec(y as nat)) =~= (u2dec(xs[0] as nat) + seq![' '] + fmt_ctx_spec(
            xs.drop_first(),
        )) + seq![' '] + u2dec(y as nat));
    }
}

/// Renders the context for the environment: decimal numbers joined by
/// single spaces.
pub fn format_context(context: &Vec<usize>) -> (r: String)
    ensures
        r@ == fmt_ctx_spec(context@),
{
    let n = context.len();
    if n == 0 {
        return String::new();
    }
    let mut r = usize_to_dec(context[0]);
    proof {
        assert(context@.take(1) =~= seq![context@[0]]);
    }
    let mut k: usize = 1;
    while k < n
        invariant
            1 <= k <= n,
            n == context@.len(),
            r@ == fmt_ctx_spec(context@.take(k as int)),
        decreases n - k,
    {
        let ghost pre = r@;
        r.append(" ");
        let d = usize_to_dec(context[k]);
        r.append(d.as_str());
        proof {
            reveal_strlit(" ");
            assert(" "@ =~= seq![' ']);
            assert(context@.take(k + 1) =~= context@.take(k as int).push(context@[k as int]));
            lemma_fmt_push(context@.take(k as int), context@[k as int]);
            assert(r@ =~= pre + seq![' '] + u2dec(context@[k as int] as nat));
        }
        k = k + 1;
    }
    proof {
        assert(context@.take(n as int) =~= context@);
    }
    r
}

proof fn lemma_parse_fmt_tokens(xs: Seq<usize>)
    requires
        xs.len() >= 1,
    ensures
        parse_tokens(fmt_ctx_spec(xs)) == Option::<Seq<usize>>::Some(xs),
    decreases xs.len()
{
    let s = fmt_ctx_spec(xs);
    let a = u2dec(xs[0] as nat);
    lemma_u2dec_digits(xs[0] as nat);
    lemma_dec_val_u2dec(xs[0] as nat);
    if xs.len() == 1 {
        assert(s == a);
        match find_spec(s, seq![' '], 0) {
            Option::Some(i) => {
                lemma_find_spec_characterization(s, seq![' '], 0);
                assert(has_sub_at(s, seq![' '], i));
                assert(s.subrange(i, i + 1)[0] == s[i]);
                assert(is_digit(s[i]));
                assert(false);
            },
            Option::None => {},
        }
        assert(is_digit(a[0]) && a[0] != '+');
        assert(token_fits(s));
        assert(token_val(s) == xs[0] as nat);
        assert(seq![token_val(s) as usize] =~= xs);
    } else {
        let at = a.len() as int;
        let tail = fmt_ctx_spec(xs.drop_first());
        assert(s == a + seq![' '] + tail);
        assert(s.subrange(at, at + 1) =~= seq![' ']);
        assert(has_sub_at(s, seq![' '], at));
        assert forall|j: int| 0 <= j < at implies !has_sub_at(s, seq![' '], j) by {
            if has_sub_at(s, seq![' '], j) {
                assert(s.subrange(j, j + 1)[0] == s[j]);
                assert(s[j] == a[j]);
                assert(is_digit(a[j]));
            }
        }
        lemma_find_spec_exact(s, seq![' '], 0, at);
        assert(s.take(at) =~= a);
        assert(is_digit(a[0]) && a[0] != '+');
        assert(token_fits(a));
        assert(token_val(a) == xs[0] as nat);
        assert(s.skip(at + 1) =~= tail);
        lemma_parse_fmt_tokens(xs.drop_first());
        assert(seq![token_val(s.take(at)) as usize] + xs.drop_first() =~= xs);
    }
}

/// Round trip of the carried integer context: rendering a context and
/// reading it back yields the same context, for every context.
pub proof fn lemma_context_round_trip(xs: Seq<usize>)
    ensures
        parse_ctx_spec(fmt_ctx_spec(xs)) == Option::<Seq<usize>>::Some(xs),
{
    if xs.len() == 0 {
        assert(fmt_ctx_spec(xs).len() == 0);
        assert(xs =~= Seq::<usize>::empty());
    } else {
        let s = fmt_ctx_spec(xs);
        lemma_u2dec_digits(xs[0] as nat);
        assert(s[0] == u2dec(xs[0] as nat)[0]);
        assert(is_digit(s[0]));
        assert(s[0] != ' ');
        assert(s.len() > 0);
        lemma_parse_fmt_tokens(xs);
    }
}

/// The tagged single-line form in which an output is handed back to the
/// calling shell.
pub open spec fn answer_line_spec(o: GenerateOutputOllama) -> Seq<char> {
    "<RAW-ANSWER>"@ + o.raw_answer@ + "</RAW-ANSWER><SHELL-COMMAND>"@ + trim_spec(o.shell_command@)
        + "</SHELL-COMMAND><CONTEXT>"@ + fmt_ctx_spec(o.context@) + "</CONTEXT>"@
}

/// Renders an output as the delimited tagged text the calling shell
/// consumes.
pub fn format_answer_and_context(output: &GenerateOutputOllama) -> (r: String)
    ensures
        r@ == answer_line_spec(*output),
{
    let mut r = String::from_str("<RAW-ANSWER>");
    r.append(output.raw_answer.as_str());
    r.append("</RAW-ANSWER><SHELL-COMMAND>");
    let trimmed = trim_str(output.shell_command.as_str());
    r.append(trimmed.as_str());
    r.append("</SHELL-COMMAND><CONTEXT>");
    let ctx = format_context(&output.context);
    r.append(ctx.as_str());
    r.append("</CONTEXT>");
    r
}

} // verus!
