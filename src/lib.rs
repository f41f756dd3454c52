mod atom;
mod category_document;
mod client;
mod config;
mod entry;
mod entry_id;
mod entry_params;
mod fixed_date_time;
mod response;
mod text;

pub use crate::atom::{read_feed, AtomEntry, AtomFeed, ExtensionElement, ExtensionLeaf, Extensions, Link};
pub use crate::category_document::{
    categories_from_events, from_category_document_xml, ParseCategory, QName, XmlAttribute,
    XmlEvent,
};
pub use crate::client::{check_status, Client, ClientError, Method, Request};
pub use crate::config::{Config, ConfigError};
pub use crate::entry::Entry;
pub use crate::entry_id::{EntryId, EntryIdParseError};
pub use crate::entry_params::EntryParams;
pub use crate::fixed_date_time::{FixedDateTime, FixedDateTimeParseError};
pub use crate::response::{
    entry_feed_xml, first_entry, from_entry_xml, from_feed_xml, get_draft, get_id, next_page_of,
    page_of_query, partial_list, CategoryDocumentResponse, CollectionResponse,
    CreateEntryResponse, DeleteEntryResponse, EmptyResponse, GetEntryResponse,
    ListCategoriesResponse, ListEntriesResponse, MemberResponse, ParseEntry, PartialList,
    UpdateEntryResponse,
};
