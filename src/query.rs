//! The query rewrite applied to every target before it is dispatched: every
//! `wait` parameter is dropped and a single `wait=true` is appended.
use vstd::prelude::*;

verus! {

/// A query parameter as plain text: name and value.
pub type PairView = (Seq<char>, Seq<char>);

/// The query parameters of `target`, decoded, in order; `None` where
/// `target` is no URL.
pub uninterp spec fn parsed_query(target: Seq<char>) -> Option<Seq<PairView>>;

/// `target` with its query replaced by `pairs`, encoded; `None` where
/// `target` is no URL.
pub uninterp spec fn with_query(target: Seq<char>, pairs: Seq<PairView>) -> Option<Seq<char>>;

/// Relies on `url::Url::parse` and `url::Url::query_pairs`: the decoded
/// query parameters of a URL, in order; `None` where the text is no URL.
#[verifier::external_body]
fn target_query_pairs(target: &str) -> (r: Option<Vec<(String, String)>>)
    ensures
        r.is_some() == parsed_query(target@).is_some(),
        r.is_some() ==> pair_views(r.unwrap()@) == parsed_query(target@).unwrap(),
{
    let url = url::Url::parse(target).ok()?;
    Some(url.query_pairs().map(|(k, v)| (k.into_owned(), v.into_owned())).collect())
}

/// Relies on `url::Url::parse` and `url::Url::query_pairs_mut`: the URL with
/// its query cleared and `pairs` appended in order; `None` where the text is
/// no URL, which is where `url::Url::parse` fails for `target_query_pairs` too.
#[verifier::external_body]
fn replace_query(target: &str, pairs: &Vec<(String, String)>) -> (r: Option<String>)
    ensures
        r.is_some() == with_query(target@, pair_views(pairs@)).is_some(),
        r.is_some() ==> r.unwrap()@ == with_query(target@, pair_views(pairs@)).unwrap(),
        r.is_some() == parsed_query(target@).is_some(),
{
    let mut url = url::Url::parse(target).ok()?;
    url.query_pairs_mut().clear().extend_pairs(pairs.iter());
    Some(url.as_str().to_owned())
}

/// The text of a list of parameters.
pub open spec fn pair_views(pairs: Seq<(String, String)>) -> Seq<PairView> {
    pairs.map_values(|p: (String, String)| (p.0@, p.1@))
}

/// The name of the parameter that the rewrite controls.
pub open spec fn wait_name() -> Seq<char> {
    seq!['w', 'a', 'i', 't']
}

/// The value that the rewrite gives it.
pub open spec fn true_value() -> Seq<char> {
    seq!['t', 'r', 'u', 'e']
}

/// Whether a parameter is some other than `wait`.
pub open spec fn is_kept(p: PairView) -> bool {
    p.0 != wait_name()
}

/// The parameters sent: the given ones but `wait`, in their order, then
/// `wait=true`.
pub open spec fn rewritten(pairs: Seq<PairView>) -> Seq<PairView> {
    kept(pairs).push((wait_name(), true_value()))
}

/// The parameters other than `wait`, in their order.
pub open spec fn kept(pairs: Seq<PairView>) -> Seq<PairView> {
    pairs.filter(|p: PairView| is_kept(p))
}

/// The rewritten parameters end with the one `wait` parameter, `wait=true`;
/// the others are the given ones but `wait`, in their order.
pub proof fn one_wait_and_order_kept(pairs: Seq<PairView>)
    ensures
        rewritten(pairs).last() == (wait_name(), true_value()),
        rewritten(pairs).drop_last() == kept(pairs),
        forall|i: int| 0 <= i < rewritten(pairs).len() - 1 ==> #[trigger] rewritten(pairs)[i].0 != wait_name(),
        forall|i: int| 0 <= i < pairs.len() && is_kept(pairs[i]) ==> #[trigger] kept(pairs).contains(pairs[i]),
{
    broadcast use vstd::seq_lib::group_filter_ensures;

    assert(rewritten(pairs).drop_last() =~= kept(pairs));
    assert forall|i: int| 0 <= i < rewritten(pairs).len() - 1 implies #[trigger] rewritten(pairs)[i].0 != wait_name() by {
        assert(rewritten(pairs)[i] == kept(pairs)[i]);
        assert(is_kept(kept(pairs)[i]));
    }
    assert forall|i: int| 0 <= i < pairs.len() && is_kept(pairs[i]) implies #[trigger] kept(pairs).contains(pairs[i]) by {
        pairs.lemma_filter_contains(|p: PairView| is_kept(p), i);
    }
}

/// Drops every `wait` parameter and appends one `wait=true`, keeping the
/// order of the others.
pub fn rewrite_query_pairs(pairs: &Vec<(String, String)>) -> (r: Vec<(String, String)>)
    ensures
        pair_views(r@) == rewritten(pair_views(pairs@)),
{
    let wait: String = "wait".to_owned();
    let yes: String = "true".to_owned();
    proof {
        reveal_strlit("wait");
        reveal_strlit("true");
        assert(wait@ == wait_name());
        assert(yes@ == true_value());
    }
    let ghost views = pair_views(pairs@);
    proof {
        reveal(Seq::filter);
    }
    let mut out: Vec<(String, String)> = Vec::new();
    let mut i: usize = 0;
    while i < pairs.len()
        invariant
            i <= pairs@.len(),
            views == pair_views(pairs@),
            wait@ == wait_name(),
            yes@ == true_value(),
            pair_views(out@) == kept(views.take(i as int)),
        decreases pairs@.len() - i,
    {
        let ghost before = out@;
        let (k, v) = (pairs[i].0.clone(), pairs[i].1.clone());
        proof {
            assert(views.take(i + 1).drop_last() =~= views.take(i as int));
            assert(views.take(i + 1).last() == views[i as int]);
            assert(views[i as int] == (k@, v@));
            reveal(Seq::filter);
        }
        if k == wait {
            proof {
                assert(!is_kept(views[i as int]));
                assert(kept(views.take(i + 1)) == kept(views.take(i as int)));
            }
        } else {
            out.push((k, v));
            proof {
                assert(is_kept(views[i as int]));
                assert(kept(views.take(i + 1)) == kept(views.take(i as int)).push(views[i as int]));
                assert(pair_views(out@) =~= pair_views(before).push(views[i as int]));
            }
        }
        i = i + 1;
    }
    out.push((wait, yes));
    proof {
        reveal(Seq::filter);
        assert(views.take(pairs@.len() as int) == views);
        assert(pair_views(out@) =~= kept(views).push((wait_name(), true_value())));
    }
    out
}

/// The address to dispatch a delivery to: `target` with its query rewritten
/// by `rewrite_query_pairs`; `None` where `target` is no URL.
pub fn dispatch_uri(target: &String) -> (r: Option<String>)
    ensures
        r.is_some() == parsed_query(target@).is_some(),
        r.is_some() ==> with_query(target@, rewritten(parsed_query(target@).unwrap())) == Some(r.unwrap()@),
{
    match target_query_pairs(target.as_str()) {
        Some(pairs) => {
            let sent = rewrite_query_pairs(&pairs);
            replace_query(target.as_str(), &sent)
        },
        None => None,
    }
}

} // verus!
