//! Where stored datasets go.
use vstd::prelude::*;

use crate::text::{ends_with, has_suffix, prefixed};

verus! {

/// Stores datasets by printing them.
#[derive(Debug)]
pub struct ConsoleStorer;

impl ConsoleStorer {
    pub fn new() -> (r: Self) {
        ConsoleStorer
    }
}

/// The file name a dataset is written under: its name, with `.parquet`
/// appended unless it already ends so.
pub open spec fn parquet_file_name(dataset_name: Seq<char>) -> Seq<char> {
    if has_suffix(dataset_name, ".parquet"@) {
        dataset_name
    } else {
        dataset_name + ".parquet"@
    }
}

/// Every dataset is written to a `.parquet` file, and a name that already ends
/// so is kept as it is: naming the file of a file's name gives that name again.
pub proof fn parquet_file_names_end_in_parquet(dataset_name: Seq<char>)
    ensures
        has_suffix(parquet_file_name(dataset_name), ".parquet"@),
        parquet_file_name(parquet_file_name(dataset_name)) == parquet_file_name(dataset_name),
{
    let ext = ".parquet"@;
    if !has_suffix(dataset_name, ext) {
        let named = dataset_name + ext;
        assert(named.subrange(named.len() - ext.len(), named.len() as int) =~= ext);
    }
}

/// The path of the entry `name` inside the directory `dir`.
pub open spec fn joined_path(dir: Seq<char>, name: Seq<char>) -> Seq<char> {
    if dir.len() == 0 {
        name
    } else if has_suffix(dir, "/"@) {
        dir + name
    } else {
        dir + "/"@ + name
    }
}

/// A file goes inside its directory: for a non-empty directory the path is the
/// directory, a `/` unless the directory already ends in one, then the name,
/// so the path starts with the directory and ends with the name.
pub proof fn files_go_inside_their_directory(dir: Seq<char>, name: Seq<char>)
    requires
        dir.len() > 0,
    ensures
        joined_path(dir, name) == dir + (if has_suffix(dir, "/"@) {
            Seq::<char>::empty()
        } else {
            "/"@
        }) + name,
        joined_path(dir, name).subrange(0, dir.len() as int) == dir,
        has_suffix(joined_path(dir, name), name),
{
    let p = joined_path(dir, name);
    if has_suffix(dir, "/"@) {
        assert(dir + Seq::<char>::empty() =~= dir);
        assert(p.subrange(0, dir.len() as int) =~= dir);
        assert(p.subrange(p.len() - name.len(), p.len() as int) =~= name);
    } else {
        assert(p.subrange(0, dir.len() as int) =~= dir);
        assert(p.subrange(p.len() - name.len(), p.len() as int) =~= name);
    }
}

/// Stores datasets as parquet files in a directory.
#[derive(Debug)]
pub struct FilePathStorer {
    file_path: String,
}

impl FilePathStorer {
    /// The directory the files go to.
    pub closed spec fn file_path_view(&self) -> Seq<char> {
        self.file_path@
    }

    pub fn new(file_path: String) -> (r: Self)
        ensures
            r.file_path_view() == file_path@,
    {
        FilePathStorer { file_path }
    }

    pub fn file_path(&self) -> (r: &str)
        ensures
            r@ == self.file_path_view(),
    {
        self.file_path.as_str()
    }

    /// The path of the file that the dataset `dataset_name` is written to.
    pub fn parquet_file_path(&self, dataset_name: &str) -> (r: String)
        ensures
            r@ == joined_path(self.file_path_view(), parquet_file_name(dataset_name@)),
            self.file_path_view().len() > 0 && has_suffix(self.file_path_view(), "/"@) ==> r@
                == self.file_path_view() + parquet_file_name(dataset_name@),
            self.file_path_view().len() > 0 && !has_suffix(self.file_path_view(), "/"@) ==> r@
                == self.file_path_view() + "/"@ + parquet_file_name(dataset_name@),
            self.file_path_view().len() == 0 ==> r@ == parquet_file_name(dataset_name@),
    {
        let file_name = if ends_with(dataset_name, ".parquet") {
            String::from_str(dataset_name)
        } else {
            prefixed(dataset_name, ".parquet")
        };
        let dir = self.file_path.as_str();
        if str_is_empty(dir) {
            file_name
        } else if ends_with(dir, "/") {
            prefixed(dir, file_name.as_str())
        } else {
            let with_slash = prefixed(dir, "/");
            prefixed(with_slash.as_str(), file_name.as_str())
        }
    }
}

/// Whether `s` is empty.
fn str_is_empty(s: &str) -> (r: bool)
    ensures
        r == (s@.len() == 0),
{
    s.unicode_len() == 0
}

/// The storers a dataset pipeline can be configured with.
#[derive(Debug)]
pub enum DatasetStorer {
    Console(ConsoleStorer),
    FilePath(FilePathStorer),
}

} // verus!
