//! Where the application keeps its data: a name and a directory, each set at
//! most once, with the platform's data directory as the fallback.
use vstd::prelude::*;

use once_cell::sync::OnceCell;
use platform_dirs::AppDirs;

use crate::error::FileError;

verus! {

#[verifier::external_type_specification]
#[verifier::external_body]
#[verifier::reject_recursive_types(T)]
pub struct ExOnceCell<T>(OnceCell<T>);

/// What a cell holds: nothing, or the one value it was set to.
pub uninterp spec fn cell_contents(c: OnceCell<String>) -> Seq<Seq<char>>;

/// Relies on `OnceCell::new`: the cell starts empty.
#[verifier::external_body]
fn cell_new() -> (r: OnceCell<String>)
    ensures
        cell_contents(r) == Seq::<Seq<char>>::empty(),
{
    OnceCell::new()
}

/// Relies on `OnceCell::get`: the value, where the cell was set.
#[verifier::external_body]
fn cell_get(c: &OnceCell<String>) -> (r: Option<&String>)
    ensures
        match r {
            Some(v) => cell_contents(*c) == seq![v@],
            None => cell_contents(*c) == Seq::<Seq<char>>::empty(),
        },
{
    c.get()
}

/// Relies on `OnceCell::set`: an empty cell takes the value; a set cell
/// keeps its own and hands the new one back.
#[verifier::external_body]
fn cell_set(c: &mut OnceCell<String>, value: String) -> (r: Result<(), String>)
    ensures
        cell_contents(*old(c)).len() == 0 ==> r is Ok && cell_contents(*final(c)) == seq![value@],
        cell_contents(*old(c)).len() > 0 ==> r is Err && cell_contents(*final(c)) == cell_contents(
            *old(c),
        ),
{
    c.set(value)
}

/// Relies on `platform_dirs::AppDirs::new`: the platform's data directory
/// for the application, where the platform has one.
#[verifier::external_body]
fn platform_data_dir(app_name: &str) -> (r: Option<String>) {
    AppDirs::new(Some(app_name), true).map(|dirs| dirs.data_dir.to_string_lossy().into_owned())
}

/// The path that `Path::join` gives for `file` adjoined to `dir`.
pub uninterp spec fn joined_path(dir: Seq<char>, file: Seq<char>) -> Seq<char>;

/// Relies on `Path::join`: `file` adjoined to `dir`, a function of the two
/// paths alone; both are UTF-8, so the text of the result is lossless.
#[verifier::external_body]
fn join_path(dir: &str, file: &str) -> (r: String)
    ensures
        r@ == joined_path(dir@, file@),
{
    std::path::Path::new(dir).join(file).to_string_lossy().into_owned()
}

/// The application name used where none was set.
pub open spec fn default_app_name() -> Seq<char> {
    "baad"@
}

/// The application's name and data directory.
pub struct DataPaths {
    app_name: OnceCell<String>,
    data_dir: OnceCell<String>,
}

impl DataPaths {
    /// The name that was set, if any.
    pub closed spec fn name_set(&self) -> Seq<Seq<char>> {
        cell_contents(self.app_name)
    }

    /// The data directory that was set, if any.
    pub closed spec fn dir_set(&self) -> Seq<Seq<char>> {
        cell_contents(self.data_dir)
    }

    /// Neither a name nor a directory set.
    pub fn new() -> (r: Self)
        ensures
            r.name_set().len() == 0,
            r.dir_set().len() == 0,
    {
        DataPaths { app_name: cell_new(), data_dir: cell_new() }
    }

    /// Sets the application name; fails where one was set already.
    pub fn set_app_name(&mut self, name: &str) -> (r: Result<(), FileError>)
        ensures
            final(self).dir_set() == old(self).dir_set(),
            old(self).name_set().len() == 0 ==> r is Ok && final(self).name_set() == seq![name@],
            old(self).name_set().len() > 0 ==> (r matches Err(FileError::AppNameAlreadySet))
                && final(self).name_set() == old(self).name_set(),
    {
        match cell_set(&mut self.app_name, name.to_owned()) {
            Ok(()) => Ok(()),
            Err(_) => Err(FileError::AppNameAlreadySet),
        }
    }

    /// Sets the data directory; fails where one was set already.
    pub fn set_data_dir(&mut self, path: &str) -> (r: Result<(), FileError>)
        ensures
            final(self).name_set() == old(self).name_set(),
            old(self).dir_set().len() == 0 ==> r is Ok && final(self).dir_set() == seq![path@],
            old(self).dir_set().len() > 0 ==> (r matches Err(FileError::DataDirAlreadySet))
                && final(self).dir_set() == old(self).dir_set(),
    {
        match cell_set(&mut self.data_dir, path.to_owned()) {
            Ok(()) => Ok(()),
            Err(_) => Err(FileError::DataDirAlreadySet),
        }
    }

    /// The application name: the one set, else `baad`.
    pub fn app_name(&self) -> (r: String)
        ensures
            self.name_set().len() > 0 ==> r@ == self.name_set()[0],
            self.name_set().len() == 0 ==> r@ == default_app_name(),
    {
        match cell_get(&self.app_name) {
            Some(name) => name.clone(),
            None => "baad".to_owned(),
        }
    }

    /// The data directory: the one set, else the platform's directory for
    /// the application; fails where the platform has none.
    pub fn data_dir(&self) -> (r: Result<String, FileError>)
        ensures
            self.dir_set().len() > 0 ==> r is Ok && r->Ok_0@ == self.dir_set()[0],
            r is Err ==> r matches Err(FileError::AppDirectoryCreationFailed),
    {
        if let Some(path) = cell_get(&self.data_dir) {
            return Ok(path.clone());
        }
        let name = self.app_name();
        match platform_data_dir(name.as_str()) {
            Some(dir) => Ok(dir),
            None => Err(FileError::AppDirectoryCreationFailed),
        }
    }

    /// The path of `filename` inside the data directory: the directory that
    /// was set, else the platform's; fails, as `data_dir` does, where there is
    /// neither.
    pub fn get_data_path(&self, filename: &str) -> (r: Result<String, FileError>)
        ensures
            self.dir_set().len() > 0 ==> r is Ok && r->Ok_0@ == joined_path(
                self.dir_set()[0],
                filename@,
            ),
            r is Ok ==> exists|dir: Seq<char>| r->Ok_0@ == #[trigger] joined_path(dir, filename@),
            r is Err ==> (r matches Err(FileError::AppDirectoryCreationFailed)),
    {
        let dir = self.data_dir()?;
        Ok(join_path(dir.as_str(), filename))
    }
}

} // verus!
