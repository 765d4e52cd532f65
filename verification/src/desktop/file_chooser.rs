//! Ask the user for access to files outside the sandbox.
//!
//! The builders gather what the `org.freedesktop.portal.FileChooser` portal
//! is to be asked: a file to open, a file to save, or several files to save
//! into one folder. Sending the request is the caller's part.

use vstd::prelude::*;
use vstd::string::*;

use crate::views::{lemma_push_deep_view, lemma_same_deep_view};
use crate::window_identifier::WindowIdentifier;

verus! {

/// The interface of the portal.
pub const INTERFACE: &'static str = "org.freedesktop.portal.FileChooser";

/// The method that asks for a file to open.
pub const OPEN_FILE_METHOD: &'static str = "OpenFile";

/// The method that asks where to save a file.
pub const SAVE_FILE_METHOD: &'static str = "SaveFile";

/// The method that asks for a folder to save several files into.
pub const SAVE_FILES_METHOD: &'static str = "SaveFiles";

/// How a rule of a file filter selects files.
#[derive(Clone, Copy, Debug, PartialEq, Eq, Structural)]
pub enum FilterType {
    /// By a glob pattern on the file's name.
    GlobPattern,
    /// By the file's mime type.
    MimeType,
}

impl DeepView for FilterType {
    type V = FilterType;

    open spec fn deep_view(&self) -> FilterType {
        *self
    }
}

impl FilterType {
    /// The number that stands for the kind on the bus.
    pub open spec fn spec_code(self) -> u32 {
        match self {
            FilterType::GlobPattern => 0,
            FilterType::MimeType => 1,
        }
    }

    /// The number that stands for the kind on the bus: 0 for a glob
    /// pattern, 1 for a mime type.
    #[verifier::when_used_as_spec(spec_code)]
    pub fn code(self) -> (r: u32)
        ensures
            r == self.spec_code(),
    {
        match self {
            FilterType::GlobPattern => 0,
            FilterType::MimeType => 1,
        }
    }
}

/// A file filter as a value: its label and its rules, in the order in which
/// they were added.
pub struct FileFilterView {
    pub label: Seq<char>,
    pub rules: Seq<(FilterType, Seq<char>)>,
}

/// A file filter, to limit the available file choices to a mimetype or a
/// glob pattern.
#[derive(Debug)]
pub struct FileFilter {
    pub label: String,
    pub rules: Vec<(FilterType, String)>,
}

impl DeepView for FileFilter {
    type V = FileFilterView;

    open spec fn deep_view(&self) -> FileFilterView {
        FileFilterView { label: self.label@, rules: self.rules.deep_view() }
    }
}

impl View for FileFilter {
    type V = FileFilterView;

    open spec fn view(&self) -> FileFilterView {
        self.deep_view()
    }
}

impl Clone for FileFilter {
    fn clone(&self) -> (r: Self)
        ensures
            r@ == self@,
    {
        let mut rules: Vec<(FilterType, String)> = Vec::new();
        let mut i: usize = 0;
        while i < self.rules.len()
            invariant
                i <= self.rules.len(),
                rules@.len() == i,
                forall|j: int|
                    0 <= j < i ==> (#[trigger] rules@[j]).deep_view()
                        == self.rules@[j].deep_view(),
            decreases self.rules.len() - i,
        {
            let kind = self.rules[i].0;
            let text = self.rules[i].1.clone();
            rules.push((kind, text));
            i += 1;
        }
        proof {
            assert(rules.deep_view() =~= self.rules.deep_view());
        }
        FileFilter { label: self.label.clone(), rules }
    }
}

impl FileFilter {
    /// Create a new file filter
    ///
    /// # Arguments
    ///
    /// * `label` - user-visible name of the file filter.
    pub fn new(label: &str) -> (r: Self)
        ensures
            r@ == (FileFilterView { label: label@, rules: Seq::empty() }),
    {
        let filter = FileFilter { label: String::from_str(label), rules: Vec::new() };
        proof {
            assert(filter.rules.deep_view() =~= Seq::empty());
        }
        filter
    }

    /// Adds a mime type to the file filter.
    #[must_use]
    pub fn mimetype(self, mimetype: &str) -> (r: Self)
        ensures
            r@ == (FileFilterView {
                rules: self@.rules.push((FilterType::MimeType, mimetype@)),
                ..self@
            }),
    {
        let mut filter = self;
        let rule = (FilterType::MimeType, String::from_str(mimetype));
        let ghost before = filter.rules;
        filter.rules.push(rule);
        proof {
            lemma_push_deep_view(before, filter.rules, rule);
        }
        filter
    }

    /// Adds a glob pattern to the file filter.
    #[must_use]
    pub fn glob(self, pattern: &str) -> (r: Self)
        ensures
            r@ == (FileFilterView {
                rules: self@.rules.push((FilterType::GlobPattern, pattern@)),
                ..self@
            }),
    {
        let mut filter = self;
        let rule = (FilterType::GlobPattern, String::from_str(pattern));
        let ghost before = filter.rules;
        filter.rules.push(rule);
        proof {
            lemma_push_deep_view(before, filter.rules, rule);
        }
        filter
    }
}

/// A choice as a value: its id, its label, the values on offer with their
/// labels, and the value selected at first.
pub struct ChoiceView {
    pub id: Seq<char>,
    pub label: Seq<char>,
    pub choices: Seq<(Seq<char>, Seq<char>)>,
    pub initial_selection: Seq<char>,
}

/// Presents the user with a choice to select from or as a checkbox.
#[derive(Debug)]
pub struct Choice {
    pub id: String,
    pub label: String,
    pub choices: Vec<(String, String)>,
    pub initial_selection: String,
}

impl DeepView for Choice {
    type V = ChoiceView;

    open spec fn deep_view(&self) -> ChoiceView {
        ChoiceView {
            id: self.id@,
            label: self.label@,
            choices: self.choices.deep_view(),
            initial_selection: self.initial_selection@,
        }
    }
}

impl View for Choice {
    type V = ChoiceView;

    open spec fn view(&self) -> ChoiceView {
        self.deep_view()
    }
}

impl Clone for Choice {
    fn clone(&self) -> (r: Self)
        ensures
            r@ == self@,
    {
        let mut choices: Vec<(String, String)> = Vec::new();
        let mut i: usize = 0;
        while i < self.choices.len()
            invariant
                i <= self.choices.len(),
                choices@.len() == i,
                forall|j: int|
                    0 <= j < i ==> (#[trigger] choices@[j]).deep_view()
                        == self.choices@[j].deep_view(),
            decreases self.choices.len() - i,
        {
            let key = self.choices[i].0.clone();
            let value = self.choices[i].1.clone();
            choices.push((key, value));
            i += 1;
        }
        proof {
            assert(choices.deep_view() =~= self.choices.deep_view());
        }
        Choice {
            id: self.id.clone(),
            label: self.label.clone(),
            choices,
            initial_selection: self.initial_selection.clone(),
        }
    }
}

/// How a checkbox state is written as a selection.
pub open spec fn boolean_text(state: bool) -> Seq<char> {
    if state {
        "true"@
    } else {
        "false"@
    }
}

impl Choice {
    /// Creates a checkbox choice.
    ///
    /// # Arguments
    ///
    /// * `id` - A unique identifier of the choice.
    /// * `label` - user-visible name of the choice.
    /// * `state` - the initial state value.
    pub fn boolean(id: &str, label: &str, state: bool) -> (r: Self)
        ensures
            r@ == (ChoiceView {
                id: id@,
                label: label@,
                choices: Seq::empty(),
                initial_selection: boolean_text(state),
            }),
    {
        if state {
            Choice::new(id, label, "true")
        } else {
            Choice::new(id, label, "false")
        }
    }

    /// Creates a new choice.
    ///
    /// # Arguments
    ///
    /// * `id` - A unique identifier of the choice.
    /// * `label` - user-visible name of the choice.
    /// * `initial_selection` - the initially selected value.
    pub fn new(id: &str, label: &str, initial_selection: &str) -> (r: Self)
        ensures
            r@ == (ChoiceView {
                id: id@,
                label: label@,
                choices: Seq::empty(),
                initial_selection: initial_selection@,
            }),
    {
        let choice = Choice {
            id: String::from_str(id),
            label: String::from_str(label),
            choices: Vec::new(),
            initial_selection: String::from_str(initial_selection),
        };
        proof {
            assert(choice.choices.deep_view() =~= Seq::empty());
        }
        choice
    }

    /// Adds a (key, value) as a choice.
    #[must_use]
    pub fn insert(self, key: &str, value: &str) -> (r: Self)
        ensures
            r@ == (ChoiceView { choices: self@.choices.push((key@, value@)), ..self@ }),
    {
        let mut choice = self;
        let pair = (String::from_str(key), String::from_str(value));
        let ghost before = choice.choices;
        choice.choices.push(pair);
        proof {
            lemma_push_deep_view(before, choice.choices, pair);
        }
        choice
    }

    /// The choice's unique id
    pub fn id(&self) -> (r: &str)
        ensures
            r@ == self@.id,
    {
        self.id.as_str()
    }

    /// The user visible label of the choice.
    pub fn label(&self) -> (r: &str)
        ensures
            r@ == self@.label,
    {
        self.label.as_str()
    }

    /// The initially selected value.
    pub fn initial_selection(&self) -> (r: &str)
        ensures
            r@ == self@.initial_selection,
    {
        self.initial_selection.as_str()
    }
}

/// Copies the filters of a slice into a vector.
fn clone_filters(filters: &[FileFilter]) -> (r: Vec<FileFilter>)
    ensures
        r.deep_view() == filters.deep_view(),
{
    let mut copy: Vec<FileFilter> = Vec::new();
    let mut i: usize = 0;
    while i < filters.len()
        invariant
            i <= filters.len(),
            copy@.len() == i,
            forall|j: int|
                0 <= j < i ==> (#[trigger] copy@[j]).deep_view() == filters@[j].deep_view(),
        decreases filters.len() - i,
    {
        copy.push(filters[i].clone());
        i += 1;
    }
    proof {
        lemma_same_deep_view(copy, filters);
    }
    copy
}

/// Copies the choices of a slice into a vector.
fn clone_choices(choices: &[Choice]) -> (r: Vec<Choice>)
    ensures
        r.deep_view() == choices.deep_view(),
{
    let mut copy: Vec<Choice> = Vec::new();
    let mut i: usize = 0;
    while i < choices.len()
        invariant
            i <= choices.len(),
            copy@.len() == i,
            forall|j: int|
                0 <= j < i ==> (#[trigger] copy@[j]).deep_view() == choices@[j].deep_view(),
        decreases choices.len() - i,
    {
        copy.push(choices[i].clone());
        i += 1;
    }
    proof {
        lemma_same_deep_view(copy, choices);
    }
    copy
}

/// The files that the user picked, as a value.
pub struct SelectedFilesView {
    pub uris: Seq<url::Url>,
    pub choices: Seq<(Seq<char>, Seq<char>)>,
}

/// A response of [`OpenFileRequest`], [`SaveFileRequest`] or
/// [`SaveFilesRequest`].
#[derive(Debug)]
pub struct SelectedFiles {
    uris: Vec<url::Url>,
    choices: Option<Vec<(String, String)>>,
}

impl View for SelectedFiles {
    type V = SelectedFilesView;

    closed spec fn view(&self) -> SelectedFilesView {
        SelectedFilesView {
            uris: self.uris@,
            choices: match self.choices {
                Some(choices) => choices.deep_view(),
                None => Seq::empty(),
            },
        }
    }
}

impl SelectedFiles {
    /// Puts together what the portal answered. An answer without choices
    /// counts as one with none selected.
    pub fn new(uris: Vec<url::Url>, choices: Option<Vec<(String, String)>>) -> (r: Self)
        ensures
            r@.uris == uris@,
            r@.choices == match choices {
                Some(choices) => choices.deep_view(),
                None => Seq::empty(),
            },
    {
        SelectedFiles { uris, choices }
    }

    /// The selected files uris.
    pub fn uris(&self) -> (r: &[url::Url])
        ensures
            r@ == self@.uris,
    {
        self.uris.as_slice()
    }

    /// The selected value of each choice as a tuple of (key, value)
    pub fn choices(&self) -> (r: &[(String, String)])
        ensures
            r.deep_view() == self@.choices,
    {
        match &self.choices {
            Some(choices) => {
                let slice = choices.as_slice();
                proof {
                    assert(slice.deep_view() =~= choices.deep_view());
                }
                slice
            },
            None => {
                let slice: &[(String, String)] = &[];
                proof {
                    assert(slice.deep_view() =~= Seq::empty());
                }
                slice
            },
        }
    }
}

/// The bytes hold a zero byte somewhere.
pub open spec fn has_nul(bytes: Seq<u8>) -> bool {
    exists|i: int| 0 <= i < bytes.len() && bytes[i] == 0
}

/// Tells whether a path holds a zero byte. Such a path cannot be sent: on
/// the bus a path ends at its first zero byte.
pub fn contains_nul(path: &[u8]) -> (r: bool)
    ensures
        r == has_nul(path@),
{
    let mut i: usize = 0;
    while i < path.len()
        invariant
            i <= path.len(),
            forall|j: int| 0 <= j < i ==> path@[j] != 0,
        decreases path.len() - i,
    {
        if path[i] == 0 {
            return true;
        }
        i += 1;
    }
    false
}

/// The path as it goes on the bus: its bytes, then a zero byte.
fn nul_terminated(path: &[u8]) -> (r: Vec<u8>)
    ensures
        r@ == path@.push(0u8),
        r.deep_view() == path@.push(0u8),
{
    let mut bytes: Vec<u8> = Vec::new();
    let mut i: usize = 0;
    while i < path.len()
        invariant
            i <= path.len(),
            bytes@ == path@.take(i as int),
        decreases path.len() - i,
    {
        bytes.push(path[i]);
        proof {
            assert(bytes@ =~= path@.take(i + 1));
        }
        i += 1;
    }
    bytes.push(0);
    proof {
        assert(bytes@ =~= path@.push(0u8));
        assert(bytes.deep_view() =~= bytes@);
    }
    bytes
}

/// The options of an open-file request as a value.
pub struct OpenFileOptionsView {
    pub accept_label: Option<Seq<char>>,
    pub modal: Option<bool>,
    pub multiple: Option<bool>,
    pub directory: Option<bool>,
    pub filters: Seq<FileFilterView>,
    pub current_filter: Option<FileFilterView>,
    pub choices: Seq<ChoiceView>,
}

impl OpenFileOptionsView {
    /// No option set, no filter and no choice.
    pub open spec fn unset() -> Self {
        OpenFileOptionsView {
            accept_label: None,
            modal: None,
            multiple: None,
            directory: None,
            filters: Seq::empty(),
            current_filter: None,
            choices: Seq::empty(),
        }
    }
}

/// What can be set for an open-file dialog. An option that was never set is
/// left to the portal.
#[derive(Debug)]
pub struct OpenFileOptions {
    pub accept_label: Option<String>,
    pub modal: Option<bool>,
    pub multiple: Option<bool>,
    pub directory: Option<bool>,
    pub filters: Vec<FileFilter>,
    pub current_filter: Option<FileFilter>,
    pub choices: Vec<Choice>,
}

impl DeepView for OpenFileOptions {
    type V = OpenFileOptionsView;

    open spec fn deep_view(&self) -> OpenFileOptionsView {
        OpenFileOptionsView {
            accept_label: self.accept_label.deep_view(),
            modal: self.modal,
            multiple: self.multiple,
            directory: self.directory,
            filters: self.filters.deep_view(),
            current_filter: self.current_filter.deep_view(),
            choices: self.choices.deep_view(),
        }
    }
}

impl View for OpenFileOptions {
    type V = OpenFileOptionsView;

    open spec fn view(&self) -> OpenFileOptionsView {
        self.deep_view()
    }
}

impl Default for OpenFileOptions {
    fn default() -> (r: Self)
        ensures
            r@ == OpenFileOptionsView::unset(),
    {
        let options = OpenFileOptions {
            accept_label: None,
            modal: None,
            multiple: None,
            directory: None,
            filters: Vec::new(),
            current_filter: None,
            choices: Vec::new(),
        };
        proof {
            assert(options.filters.deep_view() =~= Seq::empty());
            assert(options.choices.deep_view() =~= Seq::empty());
        }
        options
    }
}

/// The options of a save-file request as a value.
pub struct SaveFileOptionsView {
    pub accept_label: Option<Seq<char>>,
    pub modal: Option<bool>,
    pub current_name: Option<Seq<char>>,
    pub current_folder: Option<Seq<u8>>,
    pub current_file: Option<Seq<u8>>,
    pub filters: Seq<FileFilterView>,
    pub current_filter: Option<FileFilterView>,
    pub choices: Seq<ChoiceView>,
}

impl SaveFileOptionsView {
    /// No option set, no filter and no choice.
    pub open spec fn unset() -> Self {
        SaveFileOptionsView {
            accept_label: None,
            modal: None,
            current_name: None,
            current_folder: None,
            current_file: None,
            filters: Seq::empty(),
            current_filter: None,
            choices: Seq::empty(),
        }
    }
}

/// What can be set for a save-file dialog. Folder and file are kept as they
/// go on the bus, with their closing zero byte.
#[derive(Debug)]
pub struct SaveFileOptions {
    pub accept_label: Option<String>,
    pub modal: Option<bool>,
    pub current_name: Option<String>,
    pub current_folder: Option<Vec<u8>>,
    pub current_file: Option<Vec<u8>>,
    pub filters: Vec<FileFilter>,
    pub current_filter: Option<FileFilter>,
    pub choices: Vec<Choice>,
}

impl DeepView for SaveFileOptions {
    type V = SaveFileOptionsView;

    open spec fn deep_view(&self) -> SaveFileOptionsView {
        SaveFileOptionsView {
            accept_label: self.accept_label.deep_view(),
            modal: self.modal,
            current_name: self.current_name.deep_view(),
            current_folder: self.current_folder.deep_view(),
            current_file: self.current_file.deep_view(),
            filters: self.filters.deep_view(),
            current_filter: self.current_filter.deep_view(),
            choices: self.choices.deep_view(),
        }
    }
}

impl View for SaveFileOptions {
    type V = SaveFileOptionsView;

    open spec fn view(&self) -> SaveFileOptionsView {
        self.deep_view()
    }
}

impl Default for SaveFileOptions {
    fn default() -> (r: Self)
        ensures
            r@ == SaveFileOptionsView::unset(),
    {
        let options = SaveFileOptions {
            accept_label: None,
            modal: None,
            current_name: None,
            current_folder: None,
            current_file: None,
            filters: Vec::new(),
            current_filter: None,
            choices: Vec::new(),
        };
        proof {
            assert(options.filters.deep_view() =~= Seq::empty());
            assert(options.choices.deep_view() =~= Seq::empty());
        }
        options
    }
}

/// The options of a save-files request as a value.
pub struct SaveFilesOptionsView {
    pub accept_label: Option<Seq<char>>,
    pub modal: Option<bool>,
    pub choices: Seq<ChoiceView>,
    pub current_folder: Option<Seq<u8>>,
    pub files: Option<Seq<Seq<u8>>>,
}

impl SaveFilesOptionsView {
    /// No option set and no choice.
    pub open spec fn unset() -> Self {
        SaveFilesOptionsView {
            accept_label: None,
            modal: None,
            choices: Seq::empty(),
            current_folder: None,
            files: None,
        }
    }
}

/// What can be set for a save-files dialog. Folder and file names are kept
/// as they go on the bus, each with its closing zero byte.
#[derive(Debug)]
pub struct SaveFilesOptions {
    pub accept_label: Option<String>,
    pub modal: Option<bool>,
    pub choices: Vec<Choice>,
    pub current_folder: Option<Vec<u8>>,
    pub files: Option<Vec<Vec<u8>>>,
}

impl DeepView for SaveFilesOptions {
    type V = SaveFilesOptionsView;

    open spec fn deep_view(&self) -> SaveFilesOptionsView {
        SaveFilesOptionsView {
            accept_label: self.accept_label.deep_view(),
            modal: self.modal,
            choices: self.choices.deep_view(),
            current_folder: self.current_folder.deep_view(),
            files: self.files.deep_view(),
        }
    }
}

impl View for SaveFilesOptions {
    type V = SaveFilesOptionsView;

    open spec fn view(&self) -> SaveFilesOptionsView {
        self.deep_view()
    }
}

impl Default for SaveFilesOptions {
    fn default() -> (r: Self)
        ensures
            r@ == SaveFilesOptionsView::unset(),
    {
        let options = SaveFilesOptions {
            accept_label: None,
            modal: None,
            choices: Vec::new(),
            current_folder: None,
            files: None,
        };
        proof {
            assert(options.choices.deep_view() =~= Seq::empty());
        }
        options
    }
}

/// An open-file request as a value.
pub struct OpenFileRequestView {
    pub identifier: Seq<char>,
    pub title: Seq<char>,
    pub options: OpenFileOptionsView,
}

/// Gathers the settings of a dialog that asks for one or more files to
/// open.
#[derive(Debug)]
pub struct OpenFileRequest {
    pub identifier: WindowIdentifier,
    pub title: String,
    pub options: OpenFileOptions,
}

impl View for OpenFileRequest {
    type V = OpenFileRequestView;

    open spec fn view(&self) -> OpenFileRequestView {
        OpenFileRequestView {
            identifier: self.identifier@,
            title: self.title@,
            options: self.options@,
        }
    }
}

impl Default for OpenFileRequest {
    /// A request for no window, with an empty title and no option set.
    fn default() -> (r: Self)
        ensures
            r@ == (OpenFileRequestView {
                identifier: Seq::empty(),
                title: Seq::empty(),
                options: OpenFileOptionsView::unset(),
            }),
    {
        OpenFileRequest {
            identifier: WindowIdentifier::default(),
            title: String::new(),
            options: OpenFileOptions::default(),
        }
    }
}

impl OpenFileRequest {
    /// Sets a window identifier.
    #[must_use]
    pub fn identifier(self, identifier: WindowIdentifier) -> (r: Self)
        ensures
            r@ == (OpenFileRequestView { identifier: identifier@, ..self@ }),
    {
        let mut request = self;
        request.set_identifier(identifier);
        request
    }

    /// Sets a window identifier.
    pub fn set_identifier(&mut self, identifier: WindowIdentifier)
        ensures
            final(self)@ == (OpenFileRequestView { identifier: identifier@, ..old(self)@ }),
    {
        self.identifier = identifier;
    }

    /// Sets a title for the file chooser dialog.
    #[must_use]
    pub fn title(self, title: &str) -> (r: Self)
        ensures
            r@ == (OpenFileRequestView { title: title@, ..self@ }),
    {
        let mut request = self;
        request.set_title(title);
        request
    }

    /// Sets a title for the file chooser dialog.
    pub fn set_title(&mut self, title: &str)
        ensures
            final(self)@ == (OpenFileRequestView { title: title@, ..old(self)@ }),
    {
        self.title = String::from_str(title);
    }

    /// Sets a user-visible string to the "accept" button.
    #[must_use]
    pub fn accept_label(self, accept_label: &str) -> (r: Self)
        ensures
            r@ == (OpenFileRequestView {
                options: OpenFileOptionsView {
                    accept_label: Some(accept_label@),
                    ..self@.options
                },
                ..self@
            }),
    {
        let mut request = self;
        request.set_accept_label(accept_label);
        request
    }

    /// Sets a user-visible string to the "accept" button.
    pub fn set_accept_label(&mut self, accept_label: &str)
        ensures
            final(self)@ == (OpenFileRequestView {
                options: OpenFileOptionsView {
                    accept_label: Some(accept_label@),
                    ..old(self)@.options
                },
                ..old(self)@
            }),
    {
        self.options.accept_label = Some(String::from_str(accept_label));
    }

    /// Sets whether the dialog should be a modal.
    #[must_use]
    pub fn modal(self, modal: bool) -> (r: Self)
        ensures
            r@ == (OpenFileRequestView {
                options: OpenFileOptionsView { modal: Some(modal), ..self@.options },
                ..self@
            }),
    {
        let mut request = self;
        request.set_modal(modal);
        request
    }

    /// Sets whether the dialog should be a modal.
    pub fn set_modal(&mut self, modal: bool)
        ensures
            final(self)@ == (OpenFileRequestView {
                options: OpenFileOptionsView { modal: Some(modal), ..old(self)@.options },
                ..old(self)@
            }),
    {
        self.options.modal = Some(modal);
    }

    /// Sets whether to allow multiple files selection.
    #[must_use]
    pub fn multiple(self, multiple: bool) -> (r: Self)
        ensures
            r@ == (OpenFileRequestView {
                options: OpenFileOptionsView { multiple: Some(multiple), ..self@.options },
                ..self@
            }),
    {
        let mut request = self;
        request.set_multiple(multiple);
        request
    }

    /// Sets whether to allow multiple files selection.
    pub fn set_multiple(&mut self, multiple: bool)
        ensures
            final(self)@ == (OpenFileRequestView {
                options: OpenFileOptionsView { multiple: Some(multiple), ..old(self)@.options },
                ..old(self)@
            }),
    {
        self.options.multiple = Some(multiple);
    }

    /// Sets whether to select directories or not.
    #[must_use]
    pub fn directory(self, directory: bool) -> (r: Self)
        ensures
            r@ == (OpenFileRequestView {
                options: OpenFileOptionsView { directory: Some(directory), ..self@.options },
                ..self@
            }),
    {
        let mut request = self;
        request.set_directory(directory);
        request
    }

    /// Sets whether to select directories or not.
    pub fn set_directory(&mut self, directory: bool)
        ensures
            final(self)@ == (OpenFileRequestView {
                options: OpenFileOptionsView {
                    directory: Some(directory),
                    ..old(self)@.options
                },
                ..old(self)@
            }),
    {
        self.options.directory = Some(directory);
    }

    /// Adds a files filter.
    #[must_use]
    pub fn filter(self, filter: FileFilter) -> (r: Self)
        ensures
            r@ == (OpenFileRequestView {
                options: OpenFileOptionsView {
                    filters: self@.options.filters.push(filter@),
                    ..self@.options
                },
                ..self@
            }),
    {
        let mut request = self;
        let ghost before = request.options.filters;
        request.options.filters.push(filter);
        proof {
            lemma_push_deep_view(before, request.options.filters, filter);
        }
        request
    }

    /// Replaces the files filters.
    pub fn set_filters(&mut self, filters: &[FileFilter])
        ensures
            final(self)@ == (OpenFileRequestView {
                options: OpenFileOptionsView {
                    filters: filters.deep_view(),
                    ..old(self)@.options
                },
                ..old(self)@
            }),
    {
        self.options.filters = clone_filters(filters);
    }

    /// Specifies the default filter.
    #[must_use]
    pub fn current_filter(self, current_filter: FileFilter) -> (r: Self)
        ensures
            r@ == (OpenFileRequestView {
                options: OpenFileOptionsView {
                    current_filter: Some(current_filter@),
                    ..self@.options
                },
                ..self@
            }),
    {
        let mut request = self;
        request.options.current_filter = Some(current_filter);
        request
    }

    /// Adds a choice.
    #[must_use]
    pub fn choice(self, choice: Choice) -> (r: Self)
        ensures
            r@ == (OpenFileRequestView {
                options: OpenFileOptionsView {
                    choices: self@.options.choices.push(choice@),
                    ..self@.options
                },
                ..self@
            }),
    {
        let mut request = self;
        let ghost before = request.options.choices;
        request.options.choices.push(choice);
        proof {
            lemma_push_deep_view(before, request.options.choices, choice);
        }
        request
    }

    /// Replaces the choices.
    pub fn set_choices(&mut self, choices: &[Choice])
        ensures
            final(self)@ == (OpenFileRequestView {
                options: OpenFileOptionsView {
                    choices: choices.deep_view(),
                    ..old(self)@.options
                },
                ..old(self)@
            }),
    {
        self.options.choices = clone_choices(choices);
    }
}

/// The names as they go on the bus: each with a zero byte at its end.
pub open spec fn terminated_names(files: Seq<&[u8]>) -> Seq<Seq<u8>> {
    Seq::new(files.len(), |i: int| files[i]@.push(0u8))
}

/// A save-files request as a value.
pub struct SaveFilesRequestView {
    pub identifier: Seq<char>,
    pub title: Seq<char>,
    pub options: SaveFilesOptionsView,
}

/// Gathers the settings of a dialog that asks for a folder to save several
/// files into.
#[derive(Debug)]
pub struct SaveFilesRequest {
    pub identifier: WindowIdentifier,
    pub title: String,
    pub options: SaveFilesOptions,
}

impl View for SaveFilesRequest {
    type V = SaveFilesRequestView;

    open spec fn view(&self) -> SaveFilesRequestView {
        SaveFilesRequestView {
            identifier: self.identifier@,
            title: self.title@,
            options: self.options@,
        }
    }
}

impl Default for SaveFilesRequest {
    /// A request for no window, with an empty title and no option set.
    fn default() -> (r: Self)
        ensures
            r@ == (SaveFilesRequestView {
                identifier: Seq::empty(),
                title: Seq::empty(),
                options: SaveFilesOptionsView::unset(),
            }),
    {
        SaveFilesRequest {
            identifier: WindowIdentifier::default(),
            title: String::new(),
            options: SaveFilesOptions::default(),
        }
    }
}

impl SaveFilesRequest {
    /// Sets a window identifier.
    #[must_use]
    pub fn identifier(self, identifier: WindowIdentifier) -> (r: Self)
        ensures
            r@ == (SaveFilesRequestView { identifier: identifier@, ..self@ }),
    {
        let mut request = self;
        request.set_identifier(identifier);
        request
    }

    /// Sets a window identifier.
    pub fn set_identifier(&mut self, identifier: WindowIdentifier)
        ensures
            final(self)@ == (SaveFilesRequestView { identifier: identifier@, ..old(self)@ }),
    {
        self.identifier = identifier;
    }

    /// Sets a title for the file chooser dialog.
    #[must_use]
    pub fn title(self, title: &str) -> (r: Self)
        ensures
            r@ == (SaveFilesRequestView { title: title@, ..self@ }),
    {
        let mut request = self;
        request.set_title(title);
        request
    }

    /// Sets a title for the file chooser dialog.
    pub fn set_title(&mut self, title: &str)
        ensures
            final(self)@ == (SaveFilesRequestView { title: title@, ..old(self)@ }),
    {
        self.title = String::from_str(title);
    }

    /// Sets a user-visible string to the "accept" button.
    #[must_use]
    pub fn accept_label(self, accept_label: &str) -> (r: Self)
        ensures
            r@ == (SaveFilesRequestView {
                options: SaveFilesOptionsView {
                    accept_label: Some(accept_label@),
                    ..self@.options
                },
                ..self@
            }),
    {
        let mut request = self;
        request.set_accept_label(accept_label);
        request
    }

    /// Sets a user-visible string to the "accept" button.
    pub fn set_accept_label(&mut self, accept_label: &str)
        ensures
            final(self)@ == (SaveFilesRequestView {
                options: SaveFilesOptionsView {
                    accept_label: Some(accept_label@),
                    ..old(self)@.options
                },
                ..old(self)@
            }),
    {
        self.options.accept_label = Some(String::from_str(accept_label));
    }

    /// Sets whether the dialog should be a modal.
    #[must_use]
    pub fn modal(self, modal: bool) -> (r: Self)
        ensures
            r@ == (SaveFilesRequestView {
                options: SaveFilesOptionsView { modal: Some(modal), ..self@.options },
                ..self@
            }),
    {
        let mut request = self;
        request.set_modal(modal);
        request
    }

    /// Sets whether the dialog should be a modal.
    pub fn set_modal(&mut self, modal: bool)
        ensures
            final(self)@ == (SaveFilesRequestView {
                options: SaveFilesOptionsView { modal: Some(modal), ..old(self)@.options },
                ..old(self)@
            }),
    {
        self.options.modal = Some(modal);
    }

    /// Adds a choice.
    #[must_use]
    pub fn choice(self, choice: Choice) -> (r: Self)
        ensures
            r@ == (SaveFilesRequestView {
                options: SaveFilesOptionsView {
                    choices: self@.options.choices.push(choice@),
                    ..self@.options
                },
                ..self@
            }),
    {
        let mut request = self;
        let ghost before = request.options.choices;
        request.options.choices.push(choice);
        proof {
            lemma_push_deep_view(before, request.options.choices, choice);
        }
        request
    }

    /// Replaces the choices.
    pub fn set_choices(&mut self, choices: &[Choice])
        ensures
            final(self)@ == (SaveFilesRequestView {
                options: SaveFilesOptionsView {
                    choices: choices.deep_view(),
                    ..old(self)@.options
                },
                ..old(self)@
            }),
    {
        self.options.choices = clone_choices(choices);
    }

    /// Specifies the current folder path. The path must hold no zero byte.
    #[must_use]
    pub fn current_folder(self, current_folder: &[u8]) -> (r: Self)
        requires
            !has_nul(current_folder@),
        ensures
            r@ == (SaveFilesRequestView {
                options: SaveFilesOptionsView {
                    current_folder: Some(current_folder@.push(0u8)),
                    ..self@.options
                },
                ..self@
            }),
    {
        let mut request = self;
        request.set_current_folder(current_folder);
        request
    }

    /// Specifies the current folder path. The path must hold no zero byte.
    pub fn set_current_folder(&mut self, current_folder: &[u8])
        requires
            !has_nul(current_folder@),
        ensures
            final(self)@ == (SaveFilesRequestView {
                options: SaveFilesOptionsView {
                    current_folder: Some(current_folder@.push(0u8)),
                    ..old(self)@.options
                },
                ..old(self)@
            }),
    {
        self.options.current_folder = Some(nul_terminated(current_folder));
    }

    /// Sets a list of files to save. No name may hold a zero byte.
    #[must_use]
    pub fn files(self, files: &[&[u8]]) -> (r: Self)
        requires
            forall|i: int| 0 <= i < files@.len() ==> !has_nul(#[trigger] files@[i]@),
        ensures
            r@ == (SaveFilesRequestView {
                options: SaveFilesOptionsView {
                    files: Some(terminated_names(files@)),
                    ..self@.options
                },
                ..self@
            }),
    {
        let mut request = self;
        request.set_files(files);
        request
    }

    /// Sets a list of files to save. No name may hold a zero byte.
    pub fn set_files(&mut self, files: &[&[u8]])
        requires
            forall|i: int| 0 <= i < files@.len() ==> !has_nul(#[trigger] files@[i]@),
        ensures
            final(self)@ == (SaveFilesRequestView {
                options: SaveFilesOptionsView {
                    files: Some(terminated_names(files@)),
                    ..old(self)@.options
                },
                ..old(self)@
            }),
    {
        let mut names: Vec<Vec<u8>> = Vec::new();
        let mut i: usize = 0;
        while i < files.len()
            invariant
                i <= files.len(),
                names@.len() == i,
                forall|j: int|
                    0 <= j < i ==> (#[trigger] names@[j]).deep_view() == files@[j]@.push(0u8),
            decreases files.len() - i,
        {
            names.push(nul_terminated(files[i]));
            i += 1;
        }
        proof {
            assert(names.deep_view() =~= terminated_names(files@));
        }
        self.options.files = Some(names);
    }
}

/// A save-file request as a value.
pub struct SaveFileRequestView {
    pub identifier: Seq<char>,
    pub title: Seq<char>,
    pub options: SaveFileOptionsView,
}

/// Gathers the settings of a dialog that asks where to save one file.
#[derive(Debug)]
pub struct SaveFileRequest {
    pub identifier: WindowIdentifier,
    pub title: String,
    pub options: SaveFileOptions,
}

impl View for SaveFileRequest {
    type V = SaveFileRequestView;

    open spec fn view(&self) -> SaveFileRequestView {
        SaveFileRequestView {
            identifier: self.identifier@,
            title: self.title@,
            options: self.options@,
        }
    }
}

impl Default for SaveFileRequest {
    /// A request for no window, with an empty title and no option set.
    fn default() -> (r: Self)
        ensures
            r@ == (SaveFileRequestView {
                identifier: Seq::empty(),
                title: Seq::empty(),
                options: SaveFileOptionsView::unset(),
            }),
    {
        SaveFileRequest {
            identifier: WindowIdentifier::default(),
            title: String::new(),
            options: SaveFileOptions::default(),
        }
    }
}

impl SaveFileRequest {
    /// Sets a window identifier.
    #[must_use]
    pub fn identifier(self, identifier: WindowIdentifier) -> (r: Self)
        ensures
            r@ == (SaveFileRequestView { identifier: identifier@, ..self@ }),
    {
        let mut request = self;
        request.set_identifier(identifier);
        request
    }

    /// Sets a window identifier.
    pub fn set_identifier(&mut self, identifier: WindowIdentifier)
        ensures
            final(self)@ == (SaveFileRequestView { identifier: identifier@, ..old(self)@ }),
    {
        self.identifier = identifier;
    }

    /// Sets a title for the file chooser dialog.
    #[must_use]
    pub fn title(self, title: &str) -> (r: Self)
        ensures
            r@ == (SaveFileRequestView { title: title@, ..self@ }),
    {
        let mut request = self;
        request.set_title(title);
        request
    }

    /// Sets a title for the file chooser dialog.
    pub fn set_title(&mut self, title: &str)
        ensures
            final(self)@ == (SaveFileRequestView { title: title@, ..old(self)@ }),
    {
        self.title = String::from_str(title);
    }

    /// Sets a user-visible string to the "accept" button.
    #[must_use]
    pub fn accept_label(self, accept_label: &str) -> (r: Self)
        ensures
            r@ == (SaveFileRequestView {
                options: SaveFileOptionsView {
                    accept_label: Some(accept_label@),
                    ..self@.options
                },
                ..self@
            }),
    {
        let mut request = self;
        request.set_accept_label(accept_label);
        request
    }

    /// Sets a user-visible string to the "accept" button.
    pub fn set_accept_label(&mut self, accept_label: &str)
        ensures
            final(self)@ == (SaveFileRequestView {
                options: SaveFileOptionsView {
                    accept_label: Some(accept_label@),
                    ..old(self)@.options
                },
                ..old(self)@
            }),
    {
        self.options.accept_label = Some(String::from_str(accept_label));
    }

    /// Sets whether the dialog should be a modal.
    #[must_use]
    pub fn modal(self, modal: bool) -> (r: Self)
        ensures
            r@ == (SaveFileRequestView {
                options: SaveFileOptionsView { modal: Some(modal), ..self@.options },
                ..self@
            }),
    {
        let mut request = self;
        request.set_modal(modal);
        request
    }

    /// Sets whether the dialog should be a modal.
    pub fn set_modal(&mut self, modal: bool)
        ensures
            final(self)@ == (SaveFileRequestView {
                options: SaveFileOptionsView { modal: Some(modal), ..old(self)@.options },
                ..old(self)@
            }),
    {
        self.options.modal = Some(modal);
    }

    /// Sets the current file name.
    #[must_use]
    pub fn current_name(self, current_name: &str) -> (r: Self)
        ensures
            r@ == (SaveFileRequestView {
                options: SaveFileOptionsView {
                    current_name: Some(current_name@),
                    ..self@.options
                },
                ..self@
            }),
    {
        let mut request = self;
        request.set_current_name(current_name);
        request
    }

    /// Sets the current file name.
    pub fn set_current_name(&mut self, current_name: &str)
        ensures
            final(self)@ == (SaveFileRequestView {
                options: SaveFileOptionsView {
                    current_name: Some(current_name@),
                    ..old(self)@.options
                },
                ..old(self)@
            }),
    {
        self.options.current_name = Some(String::from_str(current_name));
    }

    /// Sets the current folder. The path must hold no zero byte.
    #[must_use]
    pub fn current_folder(self, current_folder: &[u8]) -> (r: Self)
        requires
            !has_nul(current_folder@),
        ensures
            r@ == (SaveFileRequestView {
                options: SaveFileOptionsView {
                    current_folder: Some(current_folder@.push(0u8)),
                    ..self@.options
                },
                ..self@
            }),
    {
        let mut request = self;
        request.set_current_folder(current_folder);
        request
    }

    /// Sets the current folder. The path must hold no zero byte.
    pub fn set_current_folder(&mut self, current_folder: &[u8])
        requires
            !has_nul(current_folder@),
        ensures
            final(self)@ == (SaveFileRequestView {
                options: SaveFileOptionsView {
                    current_folder: Some(current_folder@.push(0u8)),
                    ..old(self)@.options
                },
                ..old(self)@
            }),
    {
        self.options.current_folder = Some(nul_terminated(current_folder));
    }

    /// Sets the absolute path of the file. The path must hold no zero byte.
    #[must_use]
    pub fn current_file(self, current_file: &[u8]) -> (r: Self)
        requires
            !has_nul(current_file@),
        ensures
            r@ == (SaveFileRequestView {
                options: SaveFileOptionsView {
                    current_file: Some(current_file@.push(0u8)),
                    ..self@.options
                },
                ..self@
            }),
    {
        let mut request = self;
        request.set_current_file(current_file);
        request
    }

    /// Sets the absolute path of the file. The path must hold no zero byte.
    pub fn set_current_file(&mut self, current_file: &[u8])
        requires
            !has_nul(current_file@),
        ensures
            final(self)@ == (SaveFileRequestView {
                options: SaveFileOptionsView {
                    current_file: Some(current_file@.push(0u8)),
                    ..old(self)@.options
                },
                ..old(self)@
            }),
    {
        self.options.current_file = Some(nul_terminated(current_file));
    }

    /// Adds a files filter.
    #[must_use]
    pub fn filter(self, filter: FileFilter) -> (r: Self)
        ensures
            r@ == (SaveFileRequestView {
                options: SaveFileOptionsView {
                    filters: self@.options.filters.push(filter@),
                    ..self@.options
                },
                ..self@
            }),
    {
        let mut request = self;
        let ghost before = request.options.filters;
        request.options.filters.push(filter);
        proof {
            lemma_push_deep_view(before, request.options.filters, filter);
        }
        request
    }

    /// Replaces the files filters.
    pub fn set_filters(&mut self, filters: &[FileFilter])
        ensures
            final(self)@ == (SaveFileRequestView {
                options: SaveFileOptionsView {
                    filters: filters.deep_view(),
                    ..old(self)@.options
                },
                ..old(self)@
            }),
    {
        self.options.filters = clone_filters(filters);
    }

    /// Sets the default filter.
    #[must_use]
    pub fn current_filter(self, current_filter: FileFilter) -> (r: Self)
        ensures
            r@ == (SaveFileRequestView {
                options: SaveFileOptionsView {
                    current_filter: Some(current_filter@),
                    ..self@.options
                },
                ..self@
            }),
    {
        let mut request = self;
        request.set_current_filter(current_filter);
        request
    }

    /// Sets the default filter.
    pub fn set_current_filter(&mut self, current_filter: FileFilter)
        ensures
            final(self)@ == (SaveFileRequestView {
                options: SaveFileOptionsView {
                    current_filter: Some(current_filter@),
                    ..old(self)@.options
                },
                ..old(self)@
            }),
    {
        self.options.current_filter = Some(current_filter);
    }

    /// Adds a choice.
    #[must_use]
    pub fn choice(self, choice: Choice) -> (r: Self)
        ensures
            r@ == (SaveFileRequestView {
                options: SaveFileOptionsView {
                    choices: self@.options.choices.push(choice@),
                    ..self@.options
                },
                ..self@
            }),
    {
        let mut request = self;
        let ghost before = request.options.choices;
        request.options.choices.push(choice);
        proof {
            lemma_push_deep_view(before, request.options.choices, choice);
        }
        request
    }

    /// Replaces the choices.
    pub fn set_choices(&mut self, choices: &[Choice])
        ensures
            final(self)@ == (SaveFileRequestView {
                options: SaveFileOptionsView {
                    choices: choices.deep_view(),
                    ..old(self)@.options
                },
                ..old(self)@
            }),
    {
        self.options.choices = clone_choices(choices);
    }
}

} // verus!
