//! The description of one download.

use vstd::prelude::*;

verus! {

/// What identifies one download and where it goes. A descriptor does not
/// change once it is made.
#[derive(Debug)]
pub struct DownloadDescriptor {
    /// The caller's name for the download.
    pub id: String,
    /// Where the archive is fetched from.
    pub url: String,
    /// The expected size of the archive, in bytes.
    pub total_size: u64,
    /// The directory that receives the archive and its contents.
    pub file_path: String,
}

/// A descriptor as a mathematical value.
pub struct DescriptorModel {
    pub id: Seq<char>,
    pub url: Seq<char>,
    pub total_size: u64,
    pub file_path: Seq<char>,
}

impl View for DownloadDescriptor {
    type V = DescriptorModel;

    open spec fn view(&self) -> DescriptorModel {
        DescriptorModel {
            id: self.id@,
            url: self.url@,
            total_size: self.total_size,
            file_path: self.file_path@,
        }
    }
}

impl Clone for DownloadDescriptor {
    fn clone(&self) -> (copy: Self)
        ensures
            copy@ == self@,
    {
        DownloadDescriptor {
            id: self.id.clone(),
            url: self.url.clone(),
            total_size: self.total_size,
            file_path: self.file_path.clone(),
        }
    }
}

impl DownloadDescriptor {
    /// A descriptor with the given fields.
    pub fn new(id: String, url: String, total_size: u64, file_path: String) -> (d: Self)
        ensures
            d@ == (DescriptorModel { id: id@, url: url@, total_size, file_path: file_path@ }),
    {
        DownloadDescriptor { id, url, total_size, file_path }
    }
}

/// What was found of the four fields of a descriptor in a JSON text: each
/// field is there if the text holds a member of that name and of the right
/// kind.
#[derive(Debug)]
pub struct TargetMembers {
    /// The member `id`, if it is a text.
    pub id: Option<String>,
    /// The member `url`, if it is a text.
    pub url: Option<String>,
    /// The member `total_size`, if it is a whole number of 64 bits.
    pub total_size: Option<u64>,
    /// The member `file_path`, if it is a text.
    pub file_path: Option<String>,
}

/// The members of a JSON text as mathematical values.
pub struct MembersModel {
    pub id: Option<Seq<char>>,
    pub url: Option<Seq<char>>,
    pub total_size: Option<u64>,
    pub file_path: Option<Seq<char>>,
}

/// The view of a text that may be missing.
pub open spec fn text_view(text: Option<String>) -> Option<Seq<char>> {
    match text {
        Some(t) => Some(t@),
        None => None,
    }
}

impl View for TargetMembers {
    type V = MembersModel;

    open spec fn view(&self) -> MembersModel {
        MembersModel {
            id: text_view(self.id),
            url: text_view(self.url),
            total_size: self.total_size,
            file_path: text_view(self.file_path),
        }
    }
}

/// The view of a descriptor that may be missing.
pub open spec fn descriptor_view(d: Option<DownloadDescriptor>) -> Option<DescriptorModel> {
    match d {
        Some(d) => Some(d@),
        None => None,
    }
}

} // verus!
