//! The place of the history store.

use vstd::prelude::*;
use vstd::string::*;
use crate::sentences::text_of;

verus! {

/// The place of the store below a home directory.
pub open spec fn default_location(home: Seq<char>) -> Seq<char> {
    home + "/.config/yd/database.db"@
}

/// The place of the store: the configured one where there is one, else the
/// default place below the home directory, and none where neither is known.
pub open spec fn store_location(configured: Option<Seq<char>>, home: Option<Seq<char>>) -> Option<
    Seq<char>,
> {
    match configured {
        Some(url) => Some(url),
        None => match home {
            Some(home) => Some(default_location(home)),
            None => None,
        },
    }
}

/// The message for a store that cannot be opened.
pub open spec fn connection_error(url: Seq<char>) -> Seq<char> {
    "Error connecting to "@ + url
}

/// The place of the store, from the configured place and the home directory
/// as far as they are known.
pub fn database_url(configured: Option<String>, home: Option<String>) -> (r: Option<String>)
    ensures
        text_of(r) == store_location(text_of(configured), text_of(home)),
{
    match configured {
        Some(url) => Some(url),
        None => match home {
            Some(home) => {
                let mut url = home;
                url.append("/.config/yd/database.db");
                Some(url)
            },
            None => None,
        },
    }
}

/// The message for a store that cannot be opened.
pub fn connection_error_message(url: &str) -> (r: String)
    ensures
        r@ == connection_error(url@),
{
    let mut message = String::from_str("Error connecting to ");
    message.append(url);
    message
}

} // verus!
