//! Descriptors as tokens: the JSON text of the four fields, in base64. A
//! token is what the backlog holds for a pending download.

use vstd::prelude::*;
use vstd::utf8::*;
use vstd::string::*;
use crate::bindings::{
    base64_decode, base64_decoded, base64_encode, base64_encoded, distinct_keys,
    json_number_member, json_parse_record, json_parses, json_record_text,
    json_stringify_record, json_text_member, text_from_utf8, MAX_ENCODE_INPUT,
};
use crate::descriptor::{DescriptorModel, DownloadDescriptor, MembersModel, TargetMembers};
use crate::digits::{digit_runs_fit, digit_runs_fit_in};
use crate::error::DownloadError;
use crate::session::DownloaderClient;

verus! {

/// The name of the member that holds a descriptor's id.
pub open spec fn key_id() -> Seq<char> {
    "id"@
}

/// The name of the member that holds a descriptor's source.
pub open spec fn key_url() -> Seq<char> {
    "url"@
}

/// The name of the member that holds a descriptor's expected size.
pub open spec fn key_total_size() -> Seq<char> {
    "total_size"@
}

/// The name of the member that holds a descriptor's destination.
pub open spec fn key_file_path() -> Seq<char> {
    "file_path"@
}

/// The JSON text of a descriptor.
pub open spec fn target_text(d: DescriptorModel) -> Seq<char> {
    json_record_text(
        key_id(),
        d.id,
        key_url(),
        d.url,
        key_total_size(),
        d.total_size,
        key_file_path(),
        d.file_path,
    )
}

/// The token of a descriptor, if its JSON text can be encoded and read
/// again: it is not longer than the encoder takes and holds no run of
/// digits longer than the parser takes.
pub open spec fn encoded_target(d: DescriptorModel) -> Option<Seq<char>> {
    let bytes = encode_utf8(target_text(d));
    if bytes.len() <= MAX_ENCODE_INPUT && digit_runs_fit_in(bytes) {
        Some(base64_encoded(bytes))
    } else {
        None
    }
}

/// The descriptor that is made of the members found in a JSON text, if all
/// four are there.
pub open spec fn members_target(m: MembersModel) -> Option<DescriptorModel> {
    if m.id is Some && m.url is Some && m.total_size is Some && m.file_path is Some {
        Some(
            DescriptorModel {
                id: m.id->0,
                url: m.url->0,
                total_size: m.total_size->0,
                file_path: m.file_path->0,
            },
        )
    } else {
        None
    }
}

/// The members of a descriptor that a JSON text holds.
pub open spec fn text_members(text: Seq<char>) -> MembersModel {
    MembersModel {
        id: json_text_member(text, key_id()),
        url: json_text_member(text, key_url()),
        total_size: json_number_member(text, key_total_size()),
        file_path: json_text_member(text, key_file_path()),
    }
}

/// The descriptor that a JSON text holds, if it holds the four fields: it
/// parses, the id, the source and the destination are texts, and the
/// expected size is a whole number that fits in 64 bits.
pub open spec fn text_target(text: Seq<char>) -> Option<DescriptorModel> {
    if json_parses(text) {
        members_target(text_members(text))
    } else {
        None
    }
}

/// The descriptor that a token stands for, if it stands for one: the token
/// is base64, the bytes are UTF-8 and hold no run of digits longer than the
/// parser takes, and the text holds the four fields.
pub open spec fn decoded_target(token: Seq<char>) -> Option<DescriptorModel> {
    match base64_decoded(token) {
        Some(bytes) => if valid_utf8(bytes) && digit_runs_fit_in(bytes) {
            text_target(decode_utf8(bytes))
        } else {
            None
        },
        None => None,
    }
}

/// Makes a descriptor of the members that were found in a JSON text.
///
/// All four have to be there; a text that lacks a field, or holds one of
/// the wrong kind, describes no download.
pub fn target_from_members(members: TargetMembers) -> (r: Result<
    DownloadDescriptor,
    DownloadError,
>)
    ensures
        match members_target(members@) {
            Some(d) => r is Ok && r->Ok_0@ == d,
            None => r == Err::<DownloadDescriptor, DownloadError>(DownloadError::MalformedToken),
        },
{
    match (members.id, members.url, members.total_size, members.file_path) {
        (Some(id), Some(url), Some(total_size), Some(file_path)) => Ok(
            DownloadDescriptor { id, url, total_size, file_path },
        ),
        _ => Err(DownloadError::MalformedToken),
    }
}

/// The four member names differ from one another.
proof fn lemma_keys_differ()
    ensures
        distinct_keys(key_id(), key_url(), key_total_size(), key_file_path()),
{
    reveal_strlit("id");
    reveal_strlit("url");
    reveal_strlit("total_size");
    reveal_strlit("file_path");
    assert(key_id().len() == 2);
    assert(key_url().len() == 3);
    assert(key_total_size().len() == 10);
    assert(key_file_path().len() == 9);
}

impl DownloaderClient {
    /// Turns a descriptor into a token.
    ///
    /// The same descriptor always gives the same token, and the token
    /// decodes to the descriptor again. A descriptor whose JSON text is
    /// longer than the encoder takes, or holds a run of digits longer than
    /// the parser takes, is rejected.
    pub fn encode_target(target: &DownloadDescriptor) -> (r: Result<String, DownloadError>)
        ensures
            match encoded_target(target@) {
                Some(token) => r is Ok && r->Ok_0@ == token && decoded_target(token) == Some(
                    target@,
                ),
                None => r == Err::<String, DownloadError>(DownloadError::MalformedToken),
            },
    {
        let text = json_stringify_record(
            "id",
            target.id.as_str(),
            "url",
            target.url.as_str(),
            "total_size",
            target.total_size,
            "file_path",
            target.file_path.as_str(),
        );
        let source = text.as_str();
        let length = source.as_bytes().len();
        if length > MAX_ENCODE_INPUT || !digit_runs_fit(source.as_bytes()) {
            return Err(DownloadError::MalformedToken);
        }
        let token = base64_encode(source);
        proof {
            lemma_keys_differ();
            encode_utf8_valid_utf8(text@);
            encode_utf8_decode_utf8(text@);
        }
        Ok(token)
    }

    /// Reads the descriptor that a token stands for.
    ///
    /// A token that is no base64, whose bytes are no UTF-8 text, whose text
    /// holds a run of digits longer than the parser takes or is no JSON, or
    /// that lacks one of the four fields or holds one of the wrong kind, is
    /// rejected.
    pub fn decode_target(target: String) -> (r: Result<DownloadDescriptor, DownloadError>)
        ensures
            match decoded_target(target@) {
                Some(d) => r is Ok && r->Ok_0@ == d,
                None => r == Err::<DownloadDescriptor, DownloadError>(
                    DownloadError::MalformedToken,
                ),
            },
    {
        let bytes = match base64_decode(target.as_str()) {
            Ok(bytes) => bytes,
            Err(_) => {
                return Err(DownloadError::MalformedToken);
            },
        };
        let ghost decoded = bytes@;
        let text = match text_from_utf8(bytes) {
            Some(text) => text,
            None => {
                return Err(DownloadError::MalformedToken);
            },
        };
        proof {
            decode_utf8_encode_utf8(decoded);
        }
        if !digit_runs_fit(text.as_str().as_bytes()) {
            return Err(DownloadError::MalformedToken);
        }
        match json_parse_record(text.as_str(), "id", "url", "total_size", "file_path") {
            Some(members) => target_from_members(members),
            None => Err(DownloadError::MalformedToken),
        }
    }
}

} // verus!
