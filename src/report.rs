use vstd::prelude::*;

use vstd::string::StringExecFns;

verus! {

/// Prefix of a fatal diagnostic.
pub const ERROR_PREFIX: &'static str = "ERROR: ";

/// Text that introduces each error of a chain.
pub const CAUSE_PREFIX: &'static str = "\n    caused by: ";

/// One line per error of `causes`, each introduced by `CAUSE_PREFIX`.
pub open spec fn causes_text(causes: Seq<String>) -> Seq<char>
    decreases causes.len(),
{
    if causes.len() == 0 {
        Seq::empty()
    } else {
        causes_text(causes.drop_last()) + CAUSE_PREFIX@ + causes.last()@
    }
}

/// The diagnostic printed before a fatal exit: `msg` after `ERROR_PREFIX`,
/// then every error of the chain `causes`, outermost first.
pub fn error_report(msg: &str, causes: &Vec<String>) -> (r: String)
    ensures
        r@ == ERROR_PREFIX@ + msg@ + causes_text(causes@),
{
    let mut r = ERROR_PREFIX.to_string();
    r.append(msg);
    let mut i: usize = 0;
    while i < causes.len()
        invariant
            0 <= i <= causes@.len(),
            r@ == ERROR_PREFIX@ + msg@ + causes_text(causes@.subrange(0, i as int)),
        decreases causes@.len() - i,
    {
        assert(causes@.subrange(0, i + 1).drop_last() =~= causes@.subrange(0, i as int));
        r.append(CAUSE_PREFIX);
        r.append(causes[i].as_str());
        i = i + 1;
    }
    assert(causes@.subrange(0, causes@.len() as int) =~= causes@);
    r
}

} // verus!
