//! What holds of the status of projects, whatever the command line
//! reports.

use vstd::prelude::*;
use crate::services::container::service::{
    checked,
    compose_command,
    lines_of,
    online_flags,
    status_args,
    ExecReplyView,
};

verus! {

/// One status query answers for every project, in order: the flags read
/// off a listing are as many as the names asked about, the flag at each
/// place tells whether the name at that place is a line of the listing,
/// and it is the flag that the name would get if it were asked about
/// alone. So a name that is asked about twice gets the same answer both
/// times.
pub proof fn lemma_flags_follow_the_names(names: Seq<Seq<char>>, listing: Seq<char>)
    ensures
        online_flags(names, listing).len() == names.len(),
        forall|i: int|
            0 <= i < names.len() ==> #[trigger] online_flags(names, listing)[i] == lines_of(
                listing,
            ).contains(names[i]),
        forall|i: int|
            0 <= i < names.len() ==> online_flags(seq![#[trigger] names[i]], listing)
                == seq![online_flags(names, listing)[i]],
        forall|i: int, j: int|
            0 <= i < names.len() && 0 <= j < names.len() && names[i] == names[j]
                ==> #[trigger] online_flags(names, listing)[i] == #[trigger] online_flags(
                names,
                listing,
            )[j],
{
    assert forall|i: int| 0 <= i < names.len() implies online_flags(
        seq![#[trigger] names[i]],
        listing,
    ) == seq![online_flags(names, listing)[i]] by {
        assert(online_flags(seq![names[i]], listing) =~= seq![online_flags(names, listing)[i]]);
    }
}

/// The status query is the same command whatever is asked about, and it
/// is run in no directory; and a query that fails, fails for every
/// project alike, with the query's arguments in the error.
pub proof fn lemma_status_query_is_fixed(reply: ExecReplyView)
    ensures
        compose_command(status_args(), None).dir is None,
        compose_command(status_args(), None).args == seq!["compose"@, "ls"@, "-q"@],
        checked(status_args(), reply) is Err <==> !(reply matches ExecReplyView::Exited {
            success: true,
            ..
        }),
{
    assert(compose_command(status_args(), None).args =~= seq!["compose"@, "ls"@, "-q"@]);
}

} // verus!
