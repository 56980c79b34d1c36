//! The names of the streams written to most recently.

use vstd::prelude::*;

verus! {

/// Most stream names the directory lists.
pub const ACTIVE_STREAM_LIMIT: usize = 25;

/// Statement that lists each stream with its latest global position, most
/// recently written first, at most as many as the directory lists.
pub const ACTIVE_STREAMS_SQL: &'static str = "SELECT DISTINCT stream_name, MAX(global_position)
         FROM messages
         GROUP BY stream_name
         ORDER BY max(global_position) DESC LIMIT 25";

/// A stream and the global position of its latest message.
#[derive(Debug, Clone, PartialEq, Eq)]
pub struct StreamActivity {
    pub stream_name: String,
    pub latest_global_position: i64,
}

/// The stream names of `activity`, in its order, up to the directory's limit.
pub fn active_stream_names(activity: &Vec<StreamActivity>) -> (names: Vec<String>)
    ensures
        names.len() == if activity.len() < ACTIVE_STREAM_LIMIT {
            activity.len()
        } else {
            ACTIVE_STREAM_LIMIT
        },
        forall|i: int| 0 <= i < names.len() ==> (#[trigger] names[i])@ == activity[i].stream_name@,
{
    let mut names: Vec<String> = Vec::new();
    let mut i: usize = 0;
    while i < activity.len() && i < ACTIVE_STREAM_LIMIT
        invariant
            i <= activity.len(),
            i <= ACTIVE_STREAM_LIMIT,
            names.len() == i,
            forall|j: int| 0 <= j < i ==> (#[trigger] names[j])@ == activity[j].stream_name@,
        decreases activity.len() - i,
    {
        names.push(activity[i].stream_name.clone());
        i = i + 1;
    }
    names
}

} // verus!
