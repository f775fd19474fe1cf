//! The folder settings manager's decision logic, over an explicit model of
//! the folder: the names of its files and the shell's per-folder icon
//! pointer. The manager decides what to remove, what to write and where to
//! point the shell; the caller performs the matching filesystem and shell
//! calls in the same order and feeds the facts they report back in.

use vstd::prelude::*;

use crate::folder_settings_error::{FolderSettingsError, WindowsFolderSettingsError};
use crate::ico_codec::{encode_ico, ico_bytes};
use crate::icon_error::IconError;
use crate::icon_set::WindowsIconSet;

verus! {

/// Relies on uuid's `Uuid::new_v4` and its hyphenated display form: a fresh
/// random identifier printed as 36 ASCII characters, lowercase hexadecimal
/// digits and hyphens. Nothing relates two calls' results: each is random.
#[verifier::external_body]
fn fresh_unique_token() -> (r: Vec<u8>)
    ensures
        r@.len() == 36,
        forall|i: int| 0 <= i < r@.len() ==> is_token_byte(#[trigger] r@[i]),
{
    uuid::Uuid::new_v4().to_string().into_bytes()
}

/// A byte the unique token can hold: a decimal digit, a lowercase
/// hexadecimal letter, or a hyphen.
pub open spec fn is_token_byte(b: u8) -> bool {
    (48 <= b <= 57) || (97 <= b <= 102) || b == 45
}

/// The container file extension, as bytes: ".ico".
pub open spec fn ico_extension() -> Seq<u8> {
    seq![46u8, 105u8, 99u8, 111u8]
}

/// A file name the manager regards as one of its generated icon files: it
/// starts with the configured prefix and ends with the container extension.
pub open spec fn matches_generated(prefix: Seq<u8>, name: Seq<u8>) -> bool {
    &&& name.len() >= prefix.len()
    &&& name.len() >= 4
    &&& name.take(prefix.len() as int) == prefix
    &&& name.skip(name.len() - 4) == ico_extension()
}

/// The views of a list of file names.
pub open spec fn names_view(files: Seq<Vec<u8>>) -> Seq<Seq<u8>> {
    files.map_values(|f: Vec<u8>| f@)
}

/// How many of the names the manager regards as its generated icon files.
pub open spec fn count_matching(prefix: Seq<u8>, names: Seq<Seq<u8>>) -> int {
    names.filter(|n: Seq<u8>| matches_generated(prefix, n)).len() as int
}

/// Whether `prefix` is a prefix of `name`.
fn is_prefix_of(prefix: &Vec<u8>, name: &Vec<u8>) -> (r: bool)
    ensures
        r == (name@.len() >= prefix@.len() && name@.take(prefix@.len() as int) == prefix@),
{
    if name.len() < prefix.len() {
        return false;
    }
    let n = prefix.len();
    let mut i: usize = 0;
    while i < n
        invariant
            i <= n,
            n == prefix@.len(),
            n <= name@.len(),
            forall|j: int| 0 <= j < i ==> name@[j] == prefix@[j],
        decreases n - i,
    {
        if name[i] != prefix[i] {
            proof {
                assert(name@.take(n as int)[i as int] == name@[i as int]);
            }
            return false;
        }
        i = i + 1;
    }
    proof {
        assert(name@.take(n as int) =~= prefix@);
    }
    true
}

/// Whether the name ends in the container extension ".ico" (bytes 46, 105,
/// 99, 111).
fn ends_with_ico(name: &Vec<u8>) -> (r: bool)
    ensures
        r == (name@.len() >= 4 && name@.skip(name@.len() - 4) == ico_extension()),
{
    let n = name.len();
    if n < 4 {
        return false;
    }
    let r = name[n - 4] == 46 && name[n - 3] == 105 && name[n - 2] == 99 && name[n - 1] == 111;
    proof {
        let tail = name@.skip(n - 4);
        assert(tail.len() == 4);
        assert(tail[0] == name@[n - 4] && tail[1] == name@[n - 3] && tail[2] == name@[n - 2]
            && tail[3] == name@[n - 1]);
        if r {
            assert(tail =~= ico_extension());
        }
    }
    r
}

/// Whether the manager regards this file name as one of its generated icon
/// files.
pub fn name_matches(prefix: &Vec<u8>, name: &Vec<u8>) -> (r: bool)
    ensures
        r == matches_generated(prefix@, name@),
{
    is_prefix_of(prefix, name) && ends_with_ico(name)
}

/// The default generated-file prefix: the crate's own name, "icon_sys".
pub open spec fn default_prefix_spec() -> Seq<u8> {
    seq![105u8, 99u8, 111u8, 110u8, 95u8, 115u8, 121u8, 115u8]
}

/// Builds the default generated-file prefix.
fn default_generated_icon_prefix() -> (r: Vec<u8>)
    ensures
        r@ == default_prefix_spec(),
{
    let mut v: Vec<u8> = Vec::new();
    v.push(105);
    v.push(99);
    v.push(111);
    v.push(110);
    v.push(95);
    v.push(115);
    v.push(121);
    v.push(115);
    proof {
        assert(v@ =~= default_prefix_spec());
    }
    v
}

/// The shell-visible state of one folder: the names of the files inside it,
/// and the shell's per-folder icon pointer (present exactly when the shell
/// metadata carries one). The pointer holds a path relative to the folder,
/// so the customization survives the folder being moved.
#[derive(Debug)]
pub struct FolderState {
    /// The file names inside the folder.
    pub files: Vec<Vec<u8>>,
    /// The icon file the shell metadata points at, if any.
    pub icon_pointer: Option<Vec<u8>>,
}

/// What one successful SetIcon leaves behind: the folder's new state, the
/// name of the generated file, and the container bytes the caller writes
/// into that file (then marks hidden and system).
#[derive(Debug)]
pub struct SetIconOutcome {
    /// The folder's state after the transition.
    pub state: FolderState,
    /// The generated file's name, relative to the folder.
    pub file_name: Vec<u8>,
    /// The encoded container to write into the generated file.
    pub container: Vec<u8>,
}

/// Provides Windows folder icon settings operations: validates target
/// folders, manages the lifecycle of the generated icon file, and decides
/// the shell's per-folder icon pointer. Whether known-folder protection is
/// on and the generated-file prefix are fixed at construction.
#[derive(Debug)]
pub struct WindowsFolderSettingsProvider {
    block_known_folders: bool,
    generated_icon_prefix: Vec<u8>,
}

impl WindowsFolderSettingsProvider {
    /// Whether the manager refuses OS-registered special folders.
    pub closed spec fn blocks_known_folders(self) -> bool {
        self.block_known_folders
    }

    /// The configured prefix of generated icon file names.
    pub closed spec fn prefix(self) -> Seq<u8> {
        self.generated_icon_prefix@
    }

    /// Constructor with Windows-specific options: whether to block
    /// OS-registered special folders, and the generated-file prefix (the
    /// crate's name when none is given).
    pub fn new_windows(block_known_folders: bool, generated_icon_prefix: Option<Vec<u8>>) -> (r:
        Self)
        ensures
            r.blocks_known_folders() == block_known_folders,
            match generated_icon_prefix {
                Some(p) => r.prefix() == p@,
                None => r.prefix() == default_prefix_spec(),
            },
    {
        let generated_icon_prefix = match generated_icon_prefix {
            Some(p) => p,
            None => default_generated_icon_prefix(),
        };
        WindowsFolderSettingsProvider { block_known_folders, generated_icon_prefix }
    }

    /// Constructor with the defaults: protection on, the crate's own name as
    /// prefix.
    pub fn new() -> (r: Self)
        ensures
            r.blocks_known_folders(),
            r.prefix() == default_prefix_spec(),
    {
        Self::new_windows(true, None)
    }

    /// Validate that a folder's icon can be modified, from the facts the
    /// filesystem and the known-folder registry report: the target must
    /// exist, must be a directory, and — when protection is on — must not be
    /// an OS-registered special folder.
    pub fn validate_folder(&self, folder_exists: bool, is_directory: bool, is_known_folder: bool) -> (r:
        Result<(), WindowsFolderSettingsError>)
        ensures
            r is Ok <==> (folder_exists && is_directory && !(self.blocks_known_folders()
                && is_known_folder)),
            r matches Err(e) ==> match e {
                WindowsFolderSettingsError::FolderValidation => !folder_exists || !is_directory,
                WindowsFolderSettingsError::ProtectedFolder => folder_exists && is_directory
                    && self.blocks_known_folders() && is_known_folder,
                _ => false,
            },
    {
        if !folder_exists {
            return Err(WindowsFolderSettingsError::FolderValidation);
        }
        if !is_directory {
            return Err(WindowsFolderSettingsError::FolderValidation);
        }
        if self.block_known_folders && is_known_folder {
            return Err(WindowsFolderSettingsError::ProtectedFolder);
        }
        Ok(())
    }

    /// Returns the index of the first file name the manager regards as one
    /// of its generated icon files, if any.
    pub fn find_existing_ico(&self, files: &Vec<Vec<u8>>) -> (r: Option<usize>)
        ensures
            match r {
                Some(i) => i < files@.len() && matches_generated(self.prefix(), files@[i as int]@)
                    && forall|j: int|
                    0 <= j < i ==> !matches_generated(self.prefix(), (#[trigger] files@[j])@),
                None => forall|j: int|
                    0 <= j < files@.len() ==> !matches_generated(
                        self.prefix(),
                        (#[trigger] files@[j])@,
                    ),
            },
    {
        let n = files.len();
        let mut i: usize = 0;
        while i < n
            invariant
                i <= n,
                n == files@.len(),
                forall|j: int|
                    0 <= j < i ==> !matches_generated(self.prefix(), (#[trigger] files@[j])@),
            decreases n - i,
        {
            if name_matches(&self.generated_icon_prefix, &files[i]) {
                return Some(i);
            }
            i = i + 1;
        }
        None
    }

    /// The file names left after the manager removes every generated icon
    /// file of its prefix.
    pub open spec fn files_after_cleanup(self, names: Seq<Seq<u8>>) -> Seq<Seq<u8>> {
        names.filter(|n: Seq<u8>| !matches_generated(self.prefix(), n))
    }

    /// Copies the folder's file list, dropping every name the manager
    /// regards as a generated icon file; the caller deletes those files.
    #[verifier::loop_isolation(false)]
    fn remove_existing_generated_ico(&self, files: &Vec<Vec<u8>>) -> (r: Vec<Vec<u8>>)
        ensures
            names_view(r@) == self.files_after_cleanup(names_view(files@)),
    {
        let n = files.len();
        let mut out: Vec<Vec<u8>> = Vec::new();
        let ghost pred = |nm: Seq<u8>| !matches_generated(self.prefix(), nm);
        let mut i: usize = 0;
        while i < n
            invariant
                i <= n,
                names_view(out@) == names_view(files@).take(i as int).filter(pred),
            decreases n - i,
        {
            let keep = !name_matches(&self.generated_icon_prefix, &files[i]);
            let ghost prev = names_view(out@);
            if keep {
                out.push(vstd::slice::slice_to_vec(files[i].as_slice()));
            }
            i = i + 1;
            proof {
                let prefix_names = names_view(files@).take(i as int);
                assert(prefix_names.drop_last() =~= names_view(files@).take(i as int - 1));
                assert(prefix_names.last() == files@[i as int - 1]@);
                reveal(Seq::filter);
                if keep {
                    assert(names_view(out@) =~= prev.push(files@[i as int - 1]@));
                } else {
                    assert(names_view(out@) =~= prev);
                }
            }
        }
        proof {
            assert(names_view(files@).take(n as int) =~= names_view(files@));
        }
        out
    }

    /// Generates a unique icon file name for a newly generated icon: the
    /// configured prefix, a hyphen, a fresh random token and the container
    /// extension. A fresh name each time keeps the shell's icon cache from
    /// showing a stale image.
    pub fn generate_unique_ico_file_name(&self) -> (r: Vec<u8>)
        ensures
            matches_generated(self.prefix(), r@),
            r@.len() == self.prefix().len() + 41,
            r@.take(self.prefix().len() as int) == self.prefix(),
            r@[self.prefix().len() as int] == 45,
            forall|i: int|
                self.prefix().len() + 1 <= i < r@.len() - 4 ==> is_token_byte(#[trigger] r@[i]),
    {
        let mut name = vstd::slice::slice_to_vec(self.generated_icon_prefix.as_slice());
        let mut token = fresh_unique_token();
        let ghost tok = token@;
        name.push(45);
        name.append(&mut token);
        name.push(46);
        name.push(105);
        name.push(99);
        name.push(111);
        proof {
            let p = self.prefix();
            assert(name@ =~= p + seq![45u8] + tok + ico_extension());
            assert(name@.take(p.len() as int) =~= p);
            assert(name@.skip(name@.len() - 4) =~= ico_extension());
            assert forall|i: int|
                p.len() + 1 <= i < name@.len() - 4 implies is_token_byte(#[trigger] name@[i]) by {
                assert(name@[i] == tok[i - p.len() - 1]);
            }
        }
        name
    }

    /// One SetIcon transition over the folder model. Validates the folder,
    /// encodes the set, removes every stale generated icon file, and leaves
    /// one freshly named generated file with the shell pointer naming it.
    /// Succeeds exactly when the folder passes validation, the set is
    /// complete, and the container fits its 32-bit offsets. The caller
    /// performs the matching delete, write, attribute and shell calls; on an
    /// error nothing is handed back to perform.
    pub fn set_icon_for_folder_windows(
        &self,
        state: &FolderState,
        folder_exists: bool,
        is_directory: bool,
        is_known_folder: bool,
        icon_set: &WindowsIconSet,
    ) -> (r: Result<SetIconOutcome, WindowsFolderSettingsError>)
        requires
            icon_set.wf(),
        ensures
            r is Ok <==> (folder_exists && is_directory && !(self.blocks_known_folders()
                && is_known_folder) && icon_set.complete_spec() && crate::ico_codec::container_fits(
                *icon_set,
            )),
            r matches Ok(o) ==> {
                &&& o.container@ == ico_bytes(*icon_set)
                &&& matches_generated(self.prefix(), o.file_name@)
                &&& names_view(o.state.files@) == self.files_after_cleanup(
                    names_view(state.files@),
                ).push(o.file_name@)
                &&& (o.state.icon_pointer matches Some(p) && p@ == o.file_name@)
            },
            r matches Err(e) ==> match e {
                WindowsFolderSettingsError::FolderValidation => !folder_exists || !is_directory,
                WindowsFolderSettingsError::ProtectedFolder => folder_exists && is_directory
                    && self.blocks_known_folders() && is_known_folder,
                WindowsFolderSettingsError::Icon(ie) => ie is IncompleteSet && folder_exists
                    && is_directory && !(self.blocks_known_folders() && is_known_folder)
                    && !icon_set.complete_spec(),
                WindowsFolderSettingsError::ContainerTooLarge => folder_exists && is_directory && !(
                self.blocks_known_folders() && is_known_folder) && icon_set.complete_spec()
                    && !crate::ico_codec::container_fits(*icon_set),
                _ => false,
            },
    {
        if let Err(e) = self.validate_folder(folder_exists, is_directory, is_known_folder) {
            return Err(e);
        }
        let container = match encode_ico(icon_set) {
            Ok(b) => b,
            Err(e) => {
                return Err(e);
            },
        };
        let files = self.remove_existing_generated_ico(&state.files);
        let file_name = self.generate_unique_ico_file_name();
        let mut files = files;
        files.push(vstd::slice::slice_to_vec(file_name.as_slice()));
        let pointer = vstd::slice::slice_to_vec(file_name.as_slice());
        proof {
            assert(names_view(files@) =~= self.files_after_cleanup(
                names_view(state.files@),
            ).push(file_name@));
        }
        Ok(
            SetIconOutcome {
                state: FolderState { files, icon_pointer: Some(pointer) },
                file_name,
                container,
            },
        )
    }

    /// One ResetIcon transition over the folder model. Validates the folder,
    /// clears the shell's icon pointer, and removes every generated icon
    /// file of the manager's prefix. Resetting an already-default folder
    /// succeeds as a no-op beyond the validation.
    pub fn reset_icon_for_folder_windows(
        &self,
        state: &FolderState,
        folder_exists: bool,
        is_directory: bool,
        is_known_folder: bool,
    ) -> (r: Result<FolderState, WindowsFolderSettingsError>)
        ensures
            r is Ok <==> (folder_exists && is_directory && !(self.blocks_known_folders()
                && is_known_folder)),
            r matches Ok(ns) ==> ns.icon_pointer is None && names_view(ns.files@)
                == self.files_after_cleanup(names_view(state.files@)),
            r matches Err(e) ==> match e {
                WindowsFolderSettingsError::FolderValidation => !folder_exists || !is_directory,
                WindowsFolderSettingsError::ProtectedFolder => folder_exists && is_directory
                    && self.blocks_known_folders() && is_known_folder,
                _ => false,
            },
    {
        if let Err(e) = self.validate_folder(folder_exists, is_directory, is_known_folder) {
            return Err(e);
        }
        let files = self.remove_existing_generated_ico(&state.files);
        Ok(FolderState { files, icon_pointer: None })
    }

    /// SetIcon from the platform-agnostic set form: the images are validated
    /// and converted first, so an incomplete, duplicated or unrecognized set
    /// never reaches the encoder; the Windows-specific transition then
    /// decides exactly as it would on the converted set. Succeeds exactly
    /// when the set converts, the folder passes validation, and the
    /// container fits its 32-bit offsets.
    pub fn set_icon_for_folder(
        &self,
        state: &FolderState,
        folder_exists: bool,
        is_directory: bool,
        is_known_folder: bool,
        icon_set: crate::api::IconSet,
    ) -> (r: Result<SetIconOutcome, FolderSettingsError>)
        ensures
            r is Ok <==> (folder_exists && is_directory && !(self.blocks_known_folders()
                && is_known_folder) && WindowsIconSet::convertible_set(icon_set.images@)
                && crate::ico_codec::converted_container_fits(icon_set.images@)),
            r matches Ok(o) ==> {
                &&& o.container@ == crate::ico_codec::container_bytes(
                    crate::ico_codec::canonical_dims(),
                    crate::ico_codec::converted_frames(icon_set.images@),
                )
                &&& matches_generated(self.prefix(), o.file_name@)
                &&& names_view(o.state.files@) == self.files_after_cleanup(
                    names_view(state.files@),
                ).push(o.file_name@)
                &&& (o.state.icon_pointer matches Some(p) && p@ == o.file_name@)
            },
            r matches Err(e) ==> match e {
                FolderSettingsError::IconError(ie) => WindowsIconSet::conversion_error_cause(
                    icon_set.images@,
                    ie,
                ) && !WindowsIconSet::convertible_set(icon_set.images@),
                FolderSettingsError::Windows(we) => WindowsIconSet::convertible_set(
                    icon_set.images@,
                ) && match we {
                    WindowsFolderSettingsError::FolderValidation => !folder_exists
                        || !is_directory,
                    WindowsFolderSettingsError::ProtectedFolder => folder_exists && is_directory
                        && self.blocks_known_folders() && is_known_folder,
                    WindowsFolderSettingsError::ContainerTooLarge => folder_exists && is_directory
                        && !(self.blocks_known_folders() && is_known_folder)
                        && !crate::ico_codec::converted_container_fits(icon_set.images@),
                    _ => false,
                },
            },
    {
        let ghost imgs = icon_set.images@;
        let windows_icon_set = match WindowsIconSet::try_from(icon_set) {
            Ok(set) => set,
            Err(e) => {
                return Err(FolderSettingsError::IconError(e));
            },
        };
        proof {
            assert forall|k: int|
                0 <= k < 8 implies crate::ico_codec::set_frames(windows_icon_set)[k]
                == crate::ico_codec::converted_frames(imgs)[k] by {
                assert(windows_icon_set.spec_get(crate::icon_size::WindowsIconSize::all_spec()[k])
                    == crate::icon_set::first_icon_with_size(
                    crate::icon_set::to_windows_seq(imgs),
                    crate::icon_size::WindowsIconSize::all_spec()[k],
                ));
            }
            assert(crate::ico_codec::set_frames(windows_icon_set)
                =~= crate::ico_codec::converted_frames(imgs));
        }
        match self.set_icon_for_folder_windows(
            state,
            folder_exists,
            is_directory,
            is_known_folder,
            &windows_icon_set,
        ) {
            Ok(o) => Ok(o),
            Err(e) => Err(FolderSettingsError::Windows(e)),
        }
    }

    /// ResetIcon, reported as a cross-platform failure.
    pub fn reset_icon_for_folder(
        &self,
        state: &FolderState,
        folder_exists: bool,
        is_directory: bool,
        is_known_folder: bool,
    ) -> (r: Result<FolderState, FolderSettingsError>)
        ensures
            r is Ok <==> (folder_exists && is_directory && !(self.blocks_known_folders()
                && is_known_folder)),
            r matches Ok(ns) ==> ns.icon_pointer is None && names_view(ns.files@)
                == self.files_after_cleanup(names_view(state.files@)),
    {
        match self.reset_icon_for_folder_windows(state, folder_exists, is_directory, is_known_folder) {
            Ok(ns) => Ok(ns),
            Err(e) => Err(FolderSettingsError::Windows(e)),
        }
    }
}

/// Law: a SetIcon transition leaves exactly one generated icon file,
/// whatever matched before; applying the same shape of transition again
/// still leaves exactly one. The premise is exactly what the transition
/// guarantees of its new file list.
pub proof fn lemma_set_icon_exactly_one(prefix: Seq<u8>, names: Seq<Seq<u8>>, new_name: Seq<u8>)
    requires
        matches_generated(prefix, new_name),
    ensures
        count_matching(
            prefix,
            names.filter(|n: Seq<u8>| !matches_generated(prefix, n)).push(new_name),
        ) == 1,
{
    let keep = |n: Seq<u8>| !matches_generated(prefix, n);
    let take = |n: Seq<u8>| matches_generated(prefix, n);
    let kept = names.filter(keep);
    lemma_filter_of_kept_empty(prefix, names);
    broadcast use Seq::filter_distributes_over_add;

    assert(kept.push(new_name) =~= kept + seq![new_name]);
    reveal(Seq::filter);
    assert(seq![new_name].filter(take) =~= seq![new_name]);
    assert((kept + seq![new_name]).filter(take) == kept.filter(take) + seq![new_name].filter(take));
}

/// Law: after the cleanup every transition performs, no generated icon file
/// of the prefix is left; with the pointer cleared this is exactly the
/// folder's default state.
pub proof fn lemma_reset_leaves_none(prefix: Seq<u8>, names: Seq<Seq<u8>>)
    ensures
        count_matching(prefix, names.filter(|n: Seq<u8>| !matches_generated(prefix, n))) == 0,
{
    lemma_filter_of_kept_empty(prefix, names);
}

/// Filtering the kept names for matching ones yields nothing: what survives
/// the cleanup never matches.
proof fn lemma_filter_of_kept_empty(prefix: Seq<u8>, names: Seq<Seq<u8>>)
    ensures
        names.filter(|n: Seq<u8>| !matches_generated(prefix, n)).filter(
            |n: Seq<u8>| matches_generated(prefix, n),
        ).len() == 0,
{
    let keep = |n: Seq<u8>| !matches_generated(prefix, n);
    let take = |n: Seq<u8>| matches_generated(prefix, n);
    let kept = names.filter(keep);
    let double = kept.filter(take);
    if double.len() > 0 {
        Seq::lemma_filter_pred(kept, take, 0);
        kept.lemma_filter_contains_rev(take, double[0]);
        let j = choose|j: int| 0 <= j < kept.len() && kept[j] == double[0];
        Seq::lemma_filter_pred(names, keep, j);
    }
}

} // verus!
