//! The response extractor: finds the first fenced `bash` code block in raw
//! model text and returns its trimmed interior. Absence of a block is not
//! an error; callers turn it into an empty shell command.

use vstd::prelude::*;

use crate::textutil::{
    find_from, find_spec, has_sub_at, lemma_find_spec_characterization, str_to_chars, trim_range_to_string,
    trim_spec,
};

verus! {

/// The opening fence of a runnable block.
pub open spec fn open_tag() -> Seq<char> {
    "```bash"@
}

/// The closing fence.
pub open spec fn close_tag() -> Seq<char> {
    "```"@
}

/// The trimmed interior of the first fenced `bash` block of `s`: the span
/// between the first opening fence and the first closing fence after it,
/// or nothing when either fence is absent.
pub open spec fn extract_bash_spec(s: Seq<char>) -> Option<Seq<char>> {
    match find_spec(s, open_tag(), 0) {
        Option::None => Option::None,
        Option::Some(i) => match find_spec(s, close_tag(), i + open_tag().len()) {
            Option::None => Option::None,
            Option::Some(j) => Option::Some(trim_spec(s.subrange(i + open_tag().len(), j))),
        },
    }
}

/// Extracts the trimmed interior of the first fenced `bash` block, if one
/// is present.
pub fn extract_bash_block(s: &str) -> (r: Option<String>)
    ensures
        extract_bash_spec(s@) matches Some(c) ==> (r matches Some(x) && x@ == c),
        extract_bash_spec(s@) is None ==> r is None,
{
    let chars = str_to_chars(s);
    let open = str_to_chars("```bash");
    let close = str_to_chars("```");
    proof {
        reveal_strlit("```bash");
        reveal_strlit("```");
        assert(open@ == open_tag());
        assert(close@ == close_tag());
    }
    let n = chars.len();
    let oi = find_from(&chars, &open, 0);
    match oi {
        Option::None => Option::None,
        Option::Some(i) => {
            proof {
                lemma_find_spec_characterization(s@, open_tag(), 0);
                assert(has_sub_at(s@, open_tag(), i as int));
                assert(open_tag().len() == 7);
                assert(i + 7 <= n);
            }
            let from = i + 7;
            proof {
                lemma_find_spec_characterization(s@, close_tag(), from as int);
            }
            let ci = find_from(&chars, &close, from);
            match ci {
                Option::None => Option::None,
                Option::Some(j) => {
                    proof {
                        assert(has_sub_at(s@, close_tag(), j as int));
                    }
                    Option::Some(trim_range_to_string(&chars, from, j))
                },
            }
        },
    }
}

} // verus!
