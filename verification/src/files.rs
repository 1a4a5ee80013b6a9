//! Remote-filesystem records: directory listings, uploads and downloads.
//!
//! File bytes travel as a JSON array of numbers in `0 ..= 255`.

use vstd::prelude::*;

use crate::error::DecodeError;
use crate::json::{
    decode_strings, get_bool, get_opt_u64, get_string, lemma_lookup_at, member, mem_bool,
    mem_opt_u64, mem_str, req_member, u8_of, views_of, Json,
};
use crate::num::{lemma_dec_roundtrip_u64, u64_to_dec};

verus! {

/// What a sequence of JSON values denotes as bytes, every element a number
/// in `0 ..= 255`.
pub open spec fn bytes_of(a: Seq<Json>) -> Option<Seq<u8>>
    decreases a.len(),
{
    if a.len() == 0 {
        Some(Seq::empty())
    } else {
        match (bytes_of(a.drop_last()), u8_of(a.last())) {
            (Some(p), Some(b)) => Some(p.push(b)),
            _ => None,
        }
    }
}

/// What a JSON value denotes as a byte array.
pub open spec fn byte_seq_of(v: Json) -> Option<Seq<u8>> {
    match v {
        Json::Arr(a) => bytes_of(a@),
        _ => None,
    }
}

proof fn lemma_bytes_bad(a: Seq<Json>, i: int)
    requires
        0 <= i < a.len(),
        u8_of(a[i]) is None,
    ensures
        bytes_of(a) is None,
    decreases a.len(),
{
    if i < a.len() - 1 {
        assert(a.drop_last()[i] == a[i]);
        lemma_bytes_bad(a.drop_last(), i);
    }
}

/// Decodes a JSON array of byte values.
pub fn decode_bytes(c: &Json, k: &str) -> (r: Result<Vec<u8>, DecodeError>)
    ensures
        r matches Ok(v) ==> byte_seq_of(*c) == Some(v@),
        r is Err ==> byte_seq_of(*c) is None,
{
    match c {
        Json::Arr(a) => {
            let mut out: Vec<u8> = Vec::new();
            let n = a.len();
            let mut i: usize = 0;
            proof {
                assert(a@.take(0) =~= Seq::<Json>::empty());
            }
            while i < n
                invariant
                    i <= n == a@.len(),
                    *c == Json::Arr(*a),
                    bytes_of(a@.take(i as int)) == Some(out@),
                decreases n - i,
            {
                proof {
                    assert(a@.take(i as int + 1).drop_last() =~= a@.take(i as int));
                    assert(a@.take(i as int + 1).last() == a@[i as int]);
                }
                match crate::json::val_u8(&a[i], k) {
                    Ok(b) => {
                        out.push(b);
                    },
                    Err(_) => {
                        proof {
                            lemma_bytes_bad(a@, i as int);
                        }
                        return Err(DecodeError::at(k));
                    },
                }
                i += 1;
            }
            proof {
                assert(a@.take(n as int) =~= a@);
            }
            Ok(out)
        },
        _ => Err(DecodeError::at(k)),
    }
}

/// Encodes bytes as a JSON array of their decimal values.
pub fn encode_bytes(bs: &Vec<u8>) -> (r: Json)
    ensures
        byte_seq_of(r) == Some(bs@),
{
    let mut items: Vec<Json> = Vec::new();
    let n = bs.len();
    let mut i: usize = 0;
    proof {
        assert(bs@.take(0) =~= Seq::<u8>::empty());
        assert(bytes_of(items@) == Some(Seq::<u8>::empty()));
    }
    while i < n
        invariant
            i <= n == bs@.len(),
            bytes_of(items@) == Some(bs@.take(i as int)),
        decreases n - i,
    {
        let ghost prev = items@;
        items.push(Json::Num(u64_to_dec(bs[i] as u64)));
        proof {
            assert(items@.drop_last() =~= prev);
            lemma_dec_roundtrip_u64(bs@[i as int] as u64);
            assert(u8_of(items@.last()) == Some(bs@[i as int]));
            assert(bs@.take(i as int + 1) =~= bs@.take(i as int).push(bs@[i as int]));
        }
        i += 1;
    }
    proof {
        assert(bs@.take(n as int) =~= bs@);
    }
    Json::Arr(items)
}

/// One entry of a directory listing.
#[derive(Debug, Clone, PartialEq)]
pub struct FileInfo {
    pub name: String,
    pub path: String,
    pub is_directory: bool,
    pub size: Option<u64>,
    pub modified: Option<u64>,
}

pub struct FileInfoV {
    pub name: Seq<char>,
    pub path: Seq<char>,
    pub is_directory: bool,
    pub size: Option<u64>,
    pub modified: Option<u64>,
}

impl View for FileInfo {
    type V = FileInfoV;

    open spec fn view(&self) -> FileInfoV {
        FileInfoV {
            name: self.name@,
            path: self.path@,
            is_directory: self.is_directory,
            size: self.size,
            modified: self.modified,
        }
    }
}

pub open spec fn spec_file_info(j: Json) -> Option<FileInfoV> {
    let name = mem_str(j, "name"@);
    let path = mem_str(j, "path"@);
    let is_directory = mem_bool(j, "is_directory"@);
    let size = mem_opt_u64(j, "size"@);
    let modified = mem_opt_u64(j, "modified"@);
    if name is Some && path is Some && is_directory is Some && size is Some && modified is Some {
        Some(
            FileInfoV {
                name: name->0,
                path: path->0,
                is_directory: is_directory->0,
                size: size->0,
                modified: modified->0,
            },
        )
    } else {
        None
    }
}

impl FileInfo {
    pub fn decode(j: &Json) -> (r: Result<FileInfo, DecodeError>)
        ensures
            r matches Ok(v) ==> spec_file_info(*j) == Some(v@),
            r is Err ==> spec_file_info(*j) is None,
    {
        let name = get_string(j, "name")?;
        let path = get_string(j, "path")?;
        let is_directory = get_bool(j, "is_directory")?;
        let size = get_opt_u64(j, "size")?;
        let modified = get_opt_u64(j, "modified")?;
        Ok(FileInfo { name, path, is_directory, size, modified })
    }
}

pub open spec fn file_infos_of(a: Seq<Json>) -> Option<Seq<FileInfoV>>
    decreases a.len(),
{
    if a.len() == 0 {
        Some(Seq::empty())
    } else {
        match (file_infos_of(a.drop_last()), spec_file_info(a.last())) {
            (Some(p), Some(v)) => Some(p.push(v)),
            _ => None,
        }
    }
}

proof fn lemma_file_infos_bad(a: Seq<Json>, i: int)
    requires
        0 <= i < a.len(),
        spec_file_info(a[i]) is None,
    ensures
        file_infos_of(a) is None,
    decreases a.len(),
{
    if i < a.len() - 1 {
        assert(a.drop_last()[i] == a[i]);
        lemma_file_infos_bad(a.drop_last(), i);
    }
}

pub open spec fn file_info_views(xs: Seq<FileInfo>) -> Seq<FileInfoV> {
    xs.map_values(|x: FileInfo| x@)
}

pub fn decode_file_infos(c: &Json, k: &str) -> (r: Result<Vec<FileInfo>, DecodeError>)
    ensures
        r matches Ok(v) ==> (match *c {
            Json::Arr(a) => file_infos_of(a@) == Some(file_info_views(v@)),
            _ => false,
        }),
        r is Err ==> (match *c {
            Json::Arr(a) => file_infos_of(a@) is None,
            _ => true,
        }),
{
    match c {
        Json::Arr(a) => {
            let mut out: Vec<FileInfo> = Vec::new();
            let n = a.len();
            let mut i: usize = 0;
            proof {
                assert(a@.take(0) =~= Seq::<Json>::empty());
                assert(file_info_views(out@) =~= Seq::<FileInfoV>::empty());
            }
            while i < n
                invariant
                    i <= n == a@.len(),
                    *c == Json::Arr(*a),
                    file_infos_of(a@.take(i as int)) == Some(file_info_views(out@)),
                decreases n - i,
            {
                match FileInfo::decode(&a[i]) {
                    Ok(x) => {
                        let ghost prev = out@;
                        out.push(x);
                        proof {
                            assert(a@.take(i as int + 1).drop_last() =~= a@.take(i as int));
                            assert(a@.take(i as int + 1).last() == a@[i as int]);
                            assert(file_info_views(out@) =~= file_info_views(prev).push(
                                out@.last()@,
                            ));
                        }
                    },
                    Err(_) => {
                        proof {
                            lemma_file_infos_bad(a@, i as int);
                        }
                        return Err(DecodeError::at(k));
                    },
                }
                i += 1;
            }
            proof {
                assert(a@.take(n as int) =~= a@);
            }
            Ok(out)
        },
        _ => Err(DecodeError::at(k)),
    }
}

/// A directory listing.
#[derive(Debug, Clone, PartialEq)]
pub struct FileListResponse {
    pub files: Vec<FileInfo>,
    pub current_path: String,
}

pub struct FileListResponseV {
    pub files: Seq<FileInfoV>,
    pub current_path: Seq<char>,
}

impl View for FileListResponse {
    type V = FileListResponseV;

    open spec fn view(&self) -> FileListResponseV {
        FileListResponseV {
            files: file_info_views(self.files@),
            current_path: self.current_path@,
        }
    }
}

pub open spec fn spec_file_list(j: Json) -> Option<FileListResponseV> {
    let files = match member(j, "files"@) {
        Some(Json::Arr(a)) => file_infos_of(a@),
        _ => None,
    };
    let current_path = mem_str(j, "current_path"@);
    if files is Some && current_path is Some {
        Some(FileListResponseV { files: files->0, current_path: current_path->0 })
    } else {
        None
    }
}

impl FileListResponse {
    pub fn decode(j: &Json) -> (r: Result<FileListResponse, DecodeError>)
        ensures
            r matches Ok(v) ==> spec_file_list(*j) == Some(v@),
            r is Err ==> spec_file_list(*j) is None,
    {
        let files = decode_file_infos(req_member(j, "files")?, "files")?;
        let current_path = get_string(j, "current_path")?;
        Ok(FileListResponse { files, current_path })
    }
}

/// An upload: where to put the bytes, and whether to overwrite.
#[derive(Debug, Clone, PartialEq)]
pub struct FileUploadRequest {
    pub path: String,
    pub content: Vec<u8>,
    pub overwrite: bool,
}

pub struct FileUploadRequestV {
    pub path: Seq<char>,
    pub content: Seq<u8>,
    pub overwrite: bool,
}

impl View for FileUploadRequest {
    type V = FileUploadRequestV;

    open spec fn view(&self) -> FileUploadRequestV {
        FileUploadRequestV {
            path: self.path@,
            content: self.content@,
            overwrite: self.overwrite,
        }
    }
}

pub open spec fn spec_file_upload(j: Json) -> Option<FileUploadRequestV> {
    let path = mem_str(j, "path"@);
    let content = match member(j, "content"@) {
        Some(v) => byte_seq_of(v),
        None => None,
    };
    let overwrite = mem_bool(j, "overwrite"@);
    if path is Some && content is Some && overwrite is Some {
        Some(
            FileUploadRequestV { path: path->0, content: content->0, overwrite: overwrite->0 },
        )
    } else {
        None
    }
}

impl FileUploadRequest {
    /// Writes the upload request as a JSON object; decoding it gives back
    /// every field.
    pub fn encode(&self) -> (r: Json)
        ensures
            spec_file_upload(r) == Some(self@),
    {
        let mut entries: Vec<(String, Json)> = Vec::new();
        entries.push((String::from_str("path"), Json::Str(self.path.clone())));
        entries.push((String::from_str("content"), encode_bytes(&self.content)));
        entries.push((String::from_str("overwrite"), Json::Bool(self.overwrite)));
        let ghost o = entries@;
        let r = Json::Obj(entries);
        proof {
            reveal(crate::json::member);
            reveal(crate::json::mem_str);
            reveal(crate::json::mem_bool);
            reveal_strlit("path");
            reveal_strlit("content");
            reveal_strlit("overwrite");
            assert("path"@.len() == 4);
            assert("content"@.len() == 7);
            assert("overwrite"@.len() == 9);
            lemma_lookup_at(o, "path"@, 0);
            lemma_lookup_at(o, "content"@, 1);
            lemma_lookup_at(o, "overwrite"@, 2);
            assert(spec_file_upload(r) == Some(self@));
        }
        r
    }

    pub fn decode(j: &Json) -> (r: Result<FileUploadRequest, DecodeError>)
        ensures
            r matches Ok(v) ==> spec_file_upload(*j) == Some(v@),
            r is Err ==> spec_file_upload(*j) is None,
    {
        let path = get_string(j, "path")?;
        let content = decode_bytes(req_member(j, "content")?, "content")?;
        let overwrite = get_bool(j, "overwrite")?;
        Ok(FileUploadRequest { path, content, overwrite })
    }
}

/// A download: the bytes and the name they came under.
#[derive(Debug, Clone, PartialEq)]
pub struct FileDownloadResponse {
    pub content: Vec<u8>,
    pub filename: String,
}

pub struct FileDownloadResponseV {
    pub content: Seq<u8>,
    pub filename: Seq<char>,
}

impl View for FileDownloadResponse {
    type V = FileDownloadResponseV;

    open spec fn view(&self) -> FileDownloadResponseV {
        FileDownloadResponseV { content: self.content@, filename: self.filename@ }
    }
}

pub open spec fn spec_file_download(j: Json) -> Option<FileDownloadResponseV> {
    let content = match member(j, "content"@) {
        Some(v) => byte_seq_of(v),
        None => None,
    };
    let filename = mem_str(j, "filename"@);
    if content is Some && filename is Some {
        Some(FileDownloadResponseV { content: content->0, filename: filename->0 })
    } else {
        None
    }
}

impl FileDownloadResponse {
    pub fn decode(j: &Json) -> (r: Result<FileDownloadResponse, DecodeError>)
        ensures
            r matches Ok(v) ==> spec_file_download(*j) == Some(v@),
            r is Err ==> spec_file_download(*j) is None,
    {
        let content = decode_bytes(req_member(j, "content")?, "content")?;
        let filename = get_string(j, "filename")?;
        Ok(FileDownloadResponse { content, filename })
    }
}

} // verus!
