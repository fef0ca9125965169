use vstd::prelude::*;
use crate::decimal::{format_decimal, signed_decimal_of};
use crate::size::{display_size, size_label};

verus! {

/// Metadata of one stored file, bound to exactly one cipher (vault entry).
pub struct Attachment {
    /// Primary key; also the name of the file on disk.
    pub id: String,
    /// The owning cipher.
    pub cipher_uuid: String,
    /// Original or display name of the file, possibly client-encrypted.
    pub file_name: String,
    /// Byte length of the stored payload.
    pub file_size: i32,
    /// Per-attachment key material, opaque here.
    pub key: Option<String>,
}

/// The value of an [`Attachment`], its strings as character sequences.
pub struct AttachmentView {
    pub id: Seq<char>,
    pub cipher_uuid: Seq<char>,
    pub file_name: Seq<char>,
    pub file_size: int,
    pub key: Option<Seq<char>>,
}

pub open spec fn opt_view(o: Option<String>) -> Option<Seq<char>> {
    match o {
        Some(s) => Some(s@),
        None => None,
    }
}

impl View for Attachment {
    type V = AttachmentView;

    open spec fn view(&self) -> AttachmentView {
        AttachmentView {
            id: self.id@,
            cipher_uuid: self.cipher_uuid@,
            file_name: self.file_name@,
            file_size: self.file_size as int,
            key: opt_view(self.key),
        }
    }
}

/// `{root}/{cipher_uuid}/{id}`: where the payload of an attachment lives.
pub open spec fn file_path_of(root: Seq<char>, cipher_uuid: Seq<char>, id: Seq<char>) -> Seq<char> {
    root + "/"@ + cipher_uuid + "/"@ + id
}

/// `{host}/attachments/{cipher_uuid}/{id}`: where a client downloads an attachment.
pub open spec fn download_url_of(host: Seq<char>, cipher_uuid: Seq<char>, id: Seq<char>) -> Seq<char> {
    host + "/attachments/"@ + cipher_uuid + "/"@ + id
}

/// The client-facing record of an attachment:
/// `{ Id, Url, FileName, Size, SizeName, Key, Object }`.
pub struct AttachmentJson {
    pub id: String,
    pub url: String,
    pub file_name: String,
    pub size: String,
    pub size_name: String,
    pub key: Option<String>,
    pub object: String,
}

/// The type tag that marks a record as an attachment.
pub open spec fn attachment_tag() -> Seq<char> {
    "attachment"@
}

fn copy_key(k: &Option<String>) -> (r: Option<String>)
    ensures
        opt_view(r) == opt_view(*k),
{
    match k {
        Some(s) => Some(s.clone()),
        None => None,
    }
}

impl Attachment {
    /// A record that is not yet stored, with no key.
    pub fn new(id: String, cipher_uuid: String, file_name: String, file_size: i32) -> (r: Self)
        ensures
            r@ == (AttachmentView {
                id: id@,
                cipher_uuid: cipher_uuid@,
                file_name: file_name@,
                file_size: file_size as int,
                key: None,
            }),
    {
        Attachment { id, cipher_uuid, file_name, file_size, key: None }
    }

    /// The path of the payload under the configured attachments root.
    pub fn get_file_path(&self, attachments_root: &str) -> (r: String)
        ensures
            r@ == file_path_of(attachments_root@, self.cipher_uuid@, self.id@),
    {
        proof { reveal_strlit("/"); }
        let mut s = String::from_str(attachments_root);
        s.append("/");
        s.append(self.cipher_uuid.as_str());
        s.append("/");
        s.append(self.id.as_str());
        s
    }

    /// The client-facing record, its download URL built on `host`.
    pub fn to_json(&self, host: &str) -> (r: AttachmentJson)
        ensures
            r.id@ == self.id@,
            r.url@ == download_url_of(host@, self.cipher_uuid@, self.id@),
            r.file_name@ == self.file_name@,
            r.size@ == signed_decimal_of(self.file_size as int),
            r.size_name@ == size_label(self.file_size as int),
            opt_view(r.key) == opt_view(self.key),
            r.object@ == attachment_tag(),
    {
        proof {
            reveal_strlit("/");
            reveal_strlit("/attachments/");
        }
        let mut url = String::from_str(host);
        url.append("/attachments/");
        url.append(self.cipher_uuid.as_str());
        url.append("/");
        url.append(self.id.as_str());
        AttachmentJson {
            id: self.id.clone(),
            url,
            file_name: self.file_name.clone(),
            size: format_decimal(self.file_size as i64),
            size_name: display_size(self.file_size),
            key: copy_key(&self.key),
            object: String::from_str("attachment"),
        }
    }
}

} // verus!
