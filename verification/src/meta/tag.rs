//! A key-value pair of metadata.

use vstd::prelude::*;
use vstd::string::StringExecFns;
use super::keys::StandardTagKey;

verus! {

/// A `Tag` encapsulates a key-value pair of metadata.
#[derive(Debug, PartialEq, Eq)]
pub struct Tag {
    /// If the `Tag`'s key string is commonly associated with a typical type,
    /// meaning, or purpose, then a `StandardTagKey` is assigned to the `Tag`
    /// when it is recognized.
    ///
    /// This is a best-effort guess, since not all metadata formats have a
    /// well-defined mapping. Where it is present, prefer `std_key` to `key`.
    pub std_key: Option<StandardTagKey>,
    /// A key string indicating the type, meaning, or purpose of the `Tag`'s
    /// value.
    pub key: String,
    /// The value of the `Tag`.
    pub value: String,
}

impl Tag {
    /// The text that shows the tag: the standard key first if there is one,
    /// then the key and the value, both quoted and verbatim.
    pub open spec fn rendering(self) -> Seq<char> {
        let shown_key = match self.std_key {
            Some(std_key) => "std_key="@ + std_key.name_spec() + ", "@,
            None => Seq::<char>::empty(),
        };
        "{ "@ + shown_key + "key=\""@ + self.key@ + "\", value=\""@ + self.value@ + "\" }"@
    }

    /// Create a new `Tag`. The key and the value are copied.
    pub fn new(std_key: Option<StandardTagKey>, key: &str, value: &str) -> (tag: Tag)
        ensures
            tag.std_key == std_key,
            tag.key@ == key@,
            tag.value@ == value@,
    {
        broadcast use vstd::string::to_string_from_display_ensures_for_str;

        Tag { std_key, key: key.to_string(), value: value.to_string() }
    }

    /// Returns true if the `Tag`'s key string was recognized and a
    /// `StandardTagKey` was assigned, otherwise false is returned.
    pub fn is_known(&self) -> (known: bool)
        ensures
            known == self.std_key.is_some(),
    {
        self.std_key.is_some()
    }

    /// Shows the tag for diagnostics: `{ std_key=.., key="..", value=".." }`,
    /// without the first part when the tag has no standard key.
    pub fn to_string(&self) -> (text: String)
        ensures
            text@ == self.rendering(),
    {
        let mut text = String::from_str("{ ");
        match self.std_key {
            Some(std_key) => {
                text.append("std_key=");
                text.append(std_key.name());
                text.append(", ");
            },
            None => {},
        }
        text.append("key=\"");
        text.append(self.key.as_str());
        text.append("\", value=\"");
        text.append(self.value.as_str());
        text.append("\" }");
        text
    }
}

} // verus!
