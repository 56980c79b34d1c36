//! The store reads that a resolved address turns into, with the page they ask for.

use vstd::prelude::*;
use crate::address::{
    category_of, like_condition, resolve_stream_address, wildcard_pattern, AddressError,
    StreamAddress,
};

verus! {

/// Position of the first message a read asks for.
pub const START_POSITION: i64 = 0;

/// Most messages a read asks for.
pub const BATCH_SIZE: i64 = 100;

/// Statement of the store's single-stream read; binds the stream name, the
/// position, the batch size and the condition.
pub const READ_STREAM_SQL: &'static str = "SELECT * from message_store.get_stream_messages($1::varchar, $2::bigint, $3::bigint, $4::varchar)";

/// Statement of the store's category read; binds the category, the position,
/// the batch size, the correlation, the consumer-group member and size, and
/// the condition.
pub const READ_CATEGORY_SQL: &'static str = "SELECT * from message_store.get_category_messages($1::varchar, $2::bigint, $3::bigint, $4::varchar, $5::bigint, $6::bigint, $7::varchar);";

/// The page parameters handed to a store read.
#[derive(Debug, Clone, PartialEq, Eq)]
pub struct PageRequest {
    pub position: i64,
    pub batch_size: i64,
    pub correlation: Option<String>,
    pub consumer_group_member: Option<i64>,
    pub consumer_group_size: Option<i64>,
    pub condition: Option<String>,
}

/// A text that may be absent, as its characters.
pub open spec fn text_of(o: Option<String>) -> Option<Seq<char>> {
    match o {
        Some(s) => Some(s@),
        None => None,
    }
}

impl PageRequest {
    /// The first page under `condition`: from the start position, one batch,
    /// with no correlation and no consumer group.
    pub open spec fn is_first_page(&self, condition: Option<Seq<char>>) -> bool {
        &&& self.position == START_POSITION
        &&& self.batch_size == BATCH_SIZE
        &&& self.correlation is None
        &&& self.consumer_group_member is None
        &&& self.consumer_group_size is None
        &&& text_of(self.condition) == condition
    }

    /// The first page of a read, filtered by `condition` where one is given.
    pub fn first_page(condition: Option<String>) -> (page: PageRequest)
        ensures
            page.is_first_page(text_of(condition)),
    {
        PageRequest {
            position: START_POSITION,
            batch_size: BATCH_SIZE,
            correlation: None,
            consumer_group_member: None,
            consumer_group_size: None,
            condition,
        }
    }
}

/// One of the store's two reads, with what it binds.
#[derive(Debug, Clone, PartialEq, Eq)]
pub enum StoreRead {
    /// The messages of one stream.
    Stream { stream_name: String, page: PageRequest },
    /// The messages of a category.
    Category { category: String, page: PageRequest },
}

impl StoreRead {
    /// The statement that performs this read.
    pub fn statement(&self) -> (sql: &'static str)
        ensures
            sql@ == (match self {
                StoreRead::Stream { .. } => READ_STREAM_SQL@,
                StoreRead::Category { .. } => READ_CATEGORY_SQL@,
            }),
    {
        match self {
            StoreRead::Stream { .. } => READ_STREAM_SQL,
            StoreRead::Category { .. } => READ_CATEGORY_SQL,
        }
    }
}

/// The read for an address: an exact stream is read unfiltered; a category
/// is read under the address's filter condition. Both ask for the first page.
pub fn plan_read(address: StreamAddress) -> (read: StoreRead)
    ensures
        match address {
            StreamAddress::Exact { name } => read matches StoreRead::Stream { stream_name, page }
                && stream_name@ == name@ && page.is_first_page(None),
            StreamAddress::Category { name, filter_condition } => read matches StoreRead::Category {
                category,
                page,
            } && category@ == name@ && page.is_first_page(Some(filter_condition@)),
        },
{
    match address {
        StreamAddress::Exact { name } => StoreRead::Stream {
            stream_name: name,
            page: PageRequest::first_page(None),
        },
        StreamAddress::Category { name, filter_condition } => StoreRead::Category {
            category: name,
            page: PageRequest::first_page(Some(filter_condition)),
        },
    }
}

/// The read that fetching messages for `expression` performs: the stream
/// itself without a `*`; with one, the category before the first `-` under
/// the `like` filter of the expression, `*` read as `%`.
pub fn plan_messages_read(expression: &str) -> (read: Result<StoreRead, AddressError>)
    ensures
        !expression@.contains('*') ==> (read matches Ok(StoreRead::Stream { stream_name, page })
            && stream_name@ == expression@ && page.is_first_page(None)),
        expression@.contains('*') && category_of(expression@) is None ==> read == Err::<
            StoreRead,
            AddressError,
        >(AddressError::MissingSeparator),
        expression@.contains('*') && category_of(expression@) is Some ==> (read matches Ok(
            StoreRead::Category { category, page },
        ) && category@ == category_of(expression@)->0 && page.is_first_page(
            Some(like_condition(wildcard_pattern(expression@))),
        )),
{
    match resolve_stream_address(expression) {
        Ok(address) => Ok(plan_read(address)),
        Err(e) => Err(e),
    }
}

} // verus!
