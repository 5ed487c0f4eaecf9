//! Splitting a token stream on a separator sequence of tokens. Tokens are
//! compared by their text. The scan is greedy and left to right: wherever the
//! whole separator matches, a group ends; where the separator matches only
//! partly and the stream ends inside it, no answer exists.

use vstd::prelude::*;

verus! {

/// A stream of tokens, each held as its text.
#[derive(Debug, PartialEq, Eq)]
pub struct TokenStream {
    pub tokens: Vec<String>,
}

/// The views of a list of strings, elementwise.
pub open spec fn strs_views(s: Seq<String>) -> Seq<Seq<char>> {
    Seq::new(s.len(), |i: int| s[i]@)
}

impl View for TokenStream {
    type V = Seq<Seq<char>>;

    open spec fn view(&self) -> Seq<Seq<char>> {
        strs_views(self.tokens@)
    }
}

/// The views of a list of token streams, elementwise.
pub open spec fn streams_views(s: Seq<TokenStream>) -> Seq<Seq<Seq<char>>> {
    Seq::new(s.len(), |i: int| s[i]@)
}

/// The whole separator stands at the given place.
pub open spec fn match_at(input: Seq<Seq<char>>, sep: Seq<Seq<char>>, i: int) -> bool {
    &&& i + sep.len() <= input.len()
    &&& forall|k: int| 0 <= k < sep.len() ==> input[i + k] == #[trigger] sep[k]
}

/// The separator agrees with the input wherever the two overlap, but the
/// input ends inside it: the scan has nowhere to look.
pub open spec fn overrun_at(input: Seq<Seq<char>>, sep: Seq<Seq<char>>, i: int) -> bool {
    &&& i + sep.len() > input.len()
    &&& forall|k: int| 0 <= k < sep.len() && i + k < input.len() ==> input[i + k] == #[trigger] sep[
        k
    ]
}

/// The groups of the input from the given place on: a new group starts after
/// each full separator match, the current group collects every other token,
/// and no answer exists where the scan runs off the end inside a separator,
/// or where the separator is empty.
pub open spec fn split_from(input: Seq<Seq<char>>, sep: Seq<Seq<char>>, i: int) -> Option<
    Seq<Seq<Seq<char>>>,
>
    decreases input.len() - i,
{
    if sep.len() == 0 || i < 0 {
        None
    } else if i >= input.len() {
        Some(seq![Seq::<Seq<char>>::empty()])
    } else if match_at(input, sep, i) {
        match split_from(input, sep, i + sep.len()) {
            None => None,
            Some(rest) => Some(seq![Seq::<Seq<char>>::empty()] + rest),
        }
    } else if overrun_at(input, sep, i) {
        None
    } else {
        match split_from(input, sep, i + 1) {
            None => None,
            Some(rest) => Some(seq![seq![input[i]] + rest[0]] + rest.drop_first()),
        }
    }
}

/// What splitting yields: nothing for an empty input, the groups of the scan
/// otherwise.
pub open spec fn split_spec(input: Seq<Seq<char>>, sep: Seq<Seq<char>>) -> Option<
    Seq<Seq<Seq<char>>>,
> {
    if input.len() == 0 {
        Some(Seq::empty())
    } else {
        split_from(input, sep, 0)
    }
}

proof fn lemma_split_from_nonempty(input: Seq<Seq<char>>, sep: Seq<Seq<char>>, i: int)
    requires
        split_from(input, sep, i) is Some,
    ensures
        split_from(input, sep, i)->Some_0.len() > 0,
    decreases input.len() - i,
{
    if sep.len() == 0 || i < 0 || i >= input.len() {
    } else if match_at(input, sep, i) {
        lemma_split_from_nonempty(input, sep, i + sep.len());
    } else if overrun_at(input, sep, i) {
    } else {
        lemma_split_from_nonempty(input, sep, i + 1);
    }
}

/// The three ways a separator scan at one place can end.
#[derive(Debug, PartialEq, Eq)]
enum ScanOutcome {
    /// The whole separator stands here.
    Matched,
    /// Some overlapping token differs.
    Mismatch,
    /// The input ends inside the separator.
    Overrun,
}

/// Scans for the separator at one place, left to right, and says how the
/// scan ends.
fn scan_sep_at(input: &Vec<String>, sep: &Vec<String>, i: usize) -> (r: ScanOutcome)
    requires
        sep@.len() > 0,
        i < input@.len(),
    ensures
        r == ScanOutcome::Matched <==> match_at(strs_views(input@), strs_views(sep@), i as int),
        r == ScanOutcome::Overrun <==> overrun_at(strs_views(input@), strs_views(sep@), i as int),
{
    let ghost inputv = strs_views(input@);
    let ghost sepv = strs_views(sep@);
    let mut s_i: usize = 0;
    while s_i < sep.len()
        invariant
            inputv == strs_views(input@),
            sepv == strs_views(sep@),
            sepv.len() == sep@.len(),
            inputv.len() == input@.len(),
            i < inputv.len(),
            s_i <= sepv.len(),
            forall|k: int| 0 <= k < s_i ==> i + k < inputv.len() && inputv[i + k] == #[trigger] sepv[k],
        decreases sep@.len() - s_i,
    {
        if s_i >= input.len() - i {
            proof {
                assert(overrun_at(inputv, sepv, i as int));
                assert(!match_at(inputv, sepv, i as int));
            }
            return ScanOutcome::Overrun;
        }
        if !input[i + s_i].as_str().eq(sep[s_i].as_str()) {
            proof {
                assert(inputv[i + s_i] != sepv[s_i as int]);
                assert(!match_at(inputv, sepv, i as int));
                assert(!overrun_at(inputv, sepv, i as int));
            }
            return ScanOutcome::Mismatch;
        }
        s_i += 1;
    }
    proof {
        let last = sepv.len() - 1;
        assert(inputv[i + last] == sepv[last]);
        assert(i + sepv.len() <= inputv.len());
        assert(match_at(inputv, sepv, i as int));
        assert(!overrun_at(inputv, sepv, i as int));
    }
    ScanOutcome::Matched
}

/// Joins the groups already cut with the groups still to come: the last open
/// group continues into the first coming one.
pub open spec fn glue(acc: Seq<Seq<Seq<char>>>, rest: Option<Seq<Seq<Seq<char>>>>) -> Option<
    Seq<Seq<Seq<char>>>,
>
    recommends
        acc.len() > 0,
{
    match rest {
        None => None,
        Some(r) => Some(acc.drop_last() + seq![acc.last() + r[0]] + r.drop_first()),
    }
}

/// Splitting a stream of tokens on a separator stream.
pub trait Split: Sized {
    /// What the splitter asks of the separator.
    spec fn split_req(&self, sep: &Self) -> bool;

    /// What the splitter returns.
    spec fn split_ens(&self, sep: &Self, r: Option<Vec<Self>>) -> bool;

    fn split(&self, split: &Self) -> (r: Option<Vec<Self>>)
        requires
            self.split_req(split),
        ensures
            self.split_ens(split, r),
    ;
}

impl Split for TokenStream {
    /// The separator carries at least one token.
    open spec fn split_req(&self, sep: &TokenStream) -> bool {
        sep@.len() > 0
    }

    /// Exactly the groups that `split_spec` lists, or nothing exactly where
    /// it lists nothing.
    open spec fn split_ens(&self, sep: &TokenStream, r: Option<Vec<TokenStream>>) -> bool {
        &&& (r matches Some(v) ==> split_spec(self@, sep@) == Some(streams_views(v@)))
        &&& (r is None <==> split_spec(self@, sep@) is None)
    }

    /// Splits the stream on the separator, greedily and left to right, as
    /// `split_spec` states: the groups between full separator matches, or
    /// nothing where the input ends inside a partly matching separator.
    fn split(&self, split: &TokenStream) -> (r: Option<Vec<TokenStream>>) {
        let ghost inputv = self@;
        let ghost sepv = split@;
        if self.tokens.len() == 0 {
            let empty: Vec<TokenStream> = Vec::new();
            proof {
                assert(streams_views(empty@) =~= Seq::<Seq<Seq<char>>>::empty());
            }
            return Some(empty);
        }
        let mut done: Vec<TokenStream> = Vec::new();
        let mut cur: Vec<String> = Vec::new();
        let mut i: usize = 0;
        proof {
            if split_from(inputv, sepv, 0) is Some {
                lemma_split_from_nonempty(inputv, sepv, 0);
                let r0 = split_from(inputv, sepv, 0)->Some_0;
                assert(r0 =~= seq![r0[0]] + r0.drop_first());
                assert(glue(seq![Seq::<Seq<char>>::empty()], split_from(inputv, sepv, 0))
                    == Some(seq![Seq::<Seq<char>>::empty() + r0[0]] + r0.drop_first()));
                assert(Seq::<Seq<char>>::empty() + r0[0] =~= r0[0]);
                assert(seq![r0[0]] + r0.drop_first() =~= r0);
            }
            assert(streams_views(done@) + seq![strs_views(cur@)] =~~= seq![
                Seq::<Seq<char>>::empty(),
            ]);
        }
        while i < self.tokens.len()
            invariant
                inputv == self@,
                sepv == split@,
                inputv == strs_views(self.tokens@),
                inputv.len() == self.tokens@.len(),
                sepv.len() == split.tokens@.len(),
                sepv.len() > 0,
                inputv.len() > 0,
                i <= inputv.len(),
                split_from(inputv, sepv, 0) == glue(
                    streams_views(done@) + seq![strs_views(cur@)],
                    split_from(inputv, sepv, i as int),
                ),
            decreases inputv.len() - i,
        {
            let ghost accv = streams_views(done@) + seq![strs_views(cur@)];
            match scan_sep_at(&self.tokens, &split.tokens, i) {
                ScanOutcome::Overrun => {
                    proof {
                        assert(split_from(inputv, sepv, i as int) is None);
                        assert(split_from(inputv, sepv, 0) is None);
                    }
                    return None;
                },
                ScanOutcome::Matched => {
                    let group = TokenStream { tokens: cur };
                    let ghost curv = strs_views(group.tokens@);
                    let ghost prev_done = done@;
                    done.push(group);
                    cur = Vec::new();
                    proof {
                        let next = split_from(inputv, sepv, i + sepv.len());
                        assert(split_from(inputv, sepv, i as int) == match next {
                            Option::None => Option::<Seq<Seq<Seq<char>>>>::None,
                            Option::Some(rest) => Some(seq![Seq::<Seq<char>>::empty()] + rest),
                        });
                        let acc2 = streams_views(done@) + seq![strs_views(cur@)];
                        assert(acc2 =~~= streams_views(prev_done) + seq![curv] + seq![
                            Seq::<Seq<char>>::empty(),
                        ]);
                        assert(accv =~= streams_views(prev_done) + seq![curv]);
                        if next is Some {
                            let r = next->Some_0;
                            lemma_split_from_nonempty(inputv, sepv, i + sepv.len());
                            let withsep = seq![Seq::<Seq<char>>::empty()] + r;
                            assert(withsep[0] =~= Seq::<Seq<char>>::empty());
                            assert(withsep.drop_first() =~= r);
                            assert(glue(accv, Some(withsep))->Some_0 =~= streams_views(prev_done)
                                + seq![curv] + r) by {
                                assert(accv.drop_last() =~= streams_views(prev_done));
                                assert(accv.last() + withsep[0] =~= curv);
                            }
                            assert(glue(acc2, next)->Some_0 =~= streams_views(prev_done) + seq![
                                curv,
                            ] + r) by {
                                assert(acc2.drop_last() =~= streams_views(prev_done) + seq![curv]);
                                assert(acc2.last() + r[0] =~= r[0]);
                                assert(seq![r[0]] + r.drop_first() =~= r);
                                assert(acc2.drop_last() + seq![acc2.last() + r[0]] + r.drop_first()
                                    =~= streams_views(prev_done) + seq![curv] + (seq![r[0]]
                                    + r.drop_first()));
                            }
                        }
                        assert(split_from(inputv, sepv, 0) == glue(
                            acc2,
                            split_from(inputv, sepv, i + sepv.len()),
                        ));
                    }
                    proof {
                        assert(i + sepv.len() <= inputv.len());
                    }
                    i += split.tokens.len();
                },
                ScanOutcome::Mismatch => {
                    let tok = self.tokens[i].clone();
                    let ghost prev_cur = cur@;
                    cur.push(tok);
                    proof {
                        let next = split_from(inputv, sepv, i + 1);
                        assert(split_from(inputv, sepv, i as int) == match next {
                            Option::None => Option::<Seq<Seq<Seq<char>>>>::None,
                            Option::Some(rest) => Some(
                                seq![seq![inputv[i as int]] + rest[0]] + rest.drop_first(),
                            ),
                        });
                        let acc2 = streams_views(done@) + seq![strs_views(cur@)];
                        assert(strs_views(cur@) =~= strs_views(prev_cur).push(inputv[i as int]));
                        if next is Some {
                            let r = next->Some_0;
                            lemma_split_from_nonempty(inputv, sepv, i + 1);
                            let withtok = seq![seq![inputv[i as int]] + r[0]] + r.drop_first();
                            assert(withtok[0] =~= seq![inputv[i as int]] + r[0]);
                            assert(withtok.drop_first() =~= r.drop_first());
                            assert(glue(accv, Some(withtok))->Some_0 =~= glue(acc2, next)->Some_0)
                                by {
                                assert(accv.drop_last() =~= acc2.drop_last());
                                assert(accv.last() + withtok[0] =~= acc2.last() + r[0]);
                            }
                        }
                        assert(split_from(inputv, sepv, 0) == glue(acc2, next));
                    }
                    i += 1;
                },
            }
        }
        let ghost prev_done = done@;
        let ghost curv = strs_views(cur@);
        done.push(TokenStream { tokens: cur });
        proof {
            assert(split_from(inputv, sepv, i as int) == Some(seq![Seq::<Seq<char>>::empty()]));
            let accv = streams_views(prev_done) + seq![curv];
            let tail = seq![Seq::<Seq<char>>::empty()];
            assert(glue(accv, Some(tail))->Some_0 =~= streams_views(prev_done) + seq![curv]) by {
                assert(accv.drop_last() =~= streams_views(prev_done));
                assert(accv.last() + tail[0] =~= curv);
                assert(tail.drop_first() =~= Seq::<Seq<Seq<char>>>::empty());
            }
            assert(streams_views(done@) =~= streams_views(prev_done) + seq![curv]);
            assert(split_spec(self@, split@) == Some(streams_views(done@)));
        }
        Some(done)
    }
}

} // verus!
