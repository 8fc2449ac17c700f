use vstd::prelude::*;
use crate::paths::{file_name, join_path, path_file_name, path_join};

verus! {

/// Name a download is saved under when its proposed destination has no
/// file name.
pub const FALLBACK_FILE_NAME: &'static str = "downloaded_file.unknown";

/// Title of the dialog that offers to open a finished download.
pub const OPEN_DIALOG_TITLE: &'static str = "Open File?";

/// Opening of the dialog text that offers to open a finished download.
pub const OPEN_PROMPT_OPEN: &'static str = "Download complete: ";

/// Closing of the dialog text that offers to open a finished download.
pub const OPEN_PROMPT_CLOSE: &'static str = ". Do you want to open it?";

/// What the webview reports about a download.
#[derive(Debug, Clone, PartialEq, Eq)]
pub enum DownloadEvent {
    /// A download starts; `destination` is where the webview proposes to
    /// save it and `download_dir` is the user's download directory.
    Requested { destination: String, download_dir: String },
    /// A download ends, successfully or not.
    Finished { success: bool },
    /// Any other report.
    Other,
}

/// What the host does in answer to a download event.
#[derive(Debug, Clone, PartialEq, Eq)]
pub enum DownloadAction {
    /// Save the download at `path` in place of the proposed destination.
    SaveTo { path: String },
    /// Ask the user, with a dialog of this title and text, whether to open
    /// the file at `path`.
    OfferOpen { path: String, title: String, message: String },
    /// Nothing to do.
    Ignore,
}

/// The answer to a download event: what the host does, and whether the
/// download may go on.
#[derive(Debug, Clone, PartialEq, Eq)]
pub struct DownloadReply {
    pub action: DownloadAction,
    pub proceed: bool,
}

/// The mathematical value of a `DownloadAction`.
pub enum DownloadActionView {
    SaveTo { path: Seq<char> },
    OfferOpen { path: Seq<char>, title: Seq<char>, message: Seq<char> },
    Ignore,
}

impl View for DownloadAction {
    type V = DownloadActionView;

    open spec fn view(&self) -> DownloadActionView {
        match self {
            DownloadAction::SaveTo { path } => DownloadActionView::SaveTo { path: path@ },
            DownloadAction::OfferOpen { path, title, message } => DownloadActionView::OfferOpen {
                path: path@,
                title: title@,
                message: message@,
            },
            DownloadAction::Ignore => DownloadActionView::Ignore,
        }
    }
}

/// The name a download is saved under, given the file name of its proposed
/// destination: that name, or the fallback name where there is none.
pub open spec fn name_or_fallback(found: Option<Seq<char>>) -> Seq<char> {
    match found {
        Some(name) => name,
        None => FALLBACK_FILE_NAME@,
    }
}

/// The file name a download is saved under: the file name of the proposed
/// destination, or the fallback name where it has none.
pub open spec fn saved_file_name(destination: Seq<char>) -> Seq<char> {
    name_or_fallback(path_file_name(destination))
}

/// Where a download is saved: its file name inside the download directory.
pub open spec fn save_path(destination: Seq<char>, download_dir: Seq<char>) -> Seq<char> {
    path_join(download_dir, saved_file_name(destination))
}

/// The text of the dialog that offers to open a finished download, given
/// the file name of its path: that name, or nothing where there is none.
pub open spec fn prompt_for(shown: Option<Seq<char>>) -> Seq<char> {
    let name = match shown {
        Some(name) => name,
        None => Seq::empty(),
    };
    OPEN_PROMPT_OPEN@ + name + OPEN_PROMPT_CLOSE@
}

/// The text of the dialog that offers to open the file at `path`.
pub open spec fn open_prompt(path: Seq<char>) -> Seq<char> {
    prompt_for(path_file_name(path))
}

/// The remembered save path after an event.
pub open spec fn next_saved_path(saved: Seq<char>, event: DownloadEvent) -> Seq<char> {
    match event {
        DownloadEvent::Requested { destination, download_dir } => save_path(
            destination@,
            download_dir@,
        ),
        _ => saved,
    }
}

/// What is done in answer to an event, given the remembered save path.
pub open spec fn download_action(saved: Seq<char>, event: DownloadEvent) -> DownloadActionView {
    match event {
        DownloadEvent::Requested { destination, download_dir } => DownloadActionView::SaveTo {
            path: save_path(destination@, download_dir@),
        },
        DownloadEvent::Finished { success } => if success {
            DownloadActionView::OfferOpen {
                path: saved,
                title: OPEN_DIALOG_TITLE@,
                message: open_prompt(saved),
            }
        } else {
            DownloadActionView::Ignore
        },
        DownloadEvent::Other => DownloadActionView::Ignore,
    }
}

/// The remembered save path after a run of events.
pub open spec fn replay(saved: Seq<char>, events: Seq<DownloadEvent>) -> Seq<char>
    decreases events.len(),
{
    if events.len() == 0 {
        saved
    } else {
        replay(next_saved_path(saved, events[0]), events.drop_first())
    }
}

/// Remembers where the latest download is being saved, so that its end can
/// offer to open that file.
pub struct DownloadTracker {
    saved_path: String,
}

impl View for DownloadTracker {
    type V = Seq<char>;

    closed spec fn view(&self) -> Seq<char> {
        self.saved_path@
    }
}

impl DownloadTracker {
    /// A tracker that remembers no download yet: its save path is empty.
    pub fn new() -> (tracker: Self)
        ensures
            tracker@ == Seq::<char>::empty(),
    {
        DownloadTracker { saved_path: String::new() }
    }

    /// The remembered save path.
    pub fn saved_path(&self) -> (path: &str)
        ensures
            path@ == self@,
    {
        self.saved_path.as_str()
    }

    /// Answers a download event. A request is saved under its own file name
    /// (or the fallback name) inside the download directory, and that path
    /// is remembered; a successful end offers to open the remembered file;
    /// anything else is ignored and leaves the tracker as it was. Every
    /// download is let through.
    pub fn handle(&mut self, event: DownloadEvent) -> (reply: DownloadReply)
        ensures
            final(self)@ == next_saved_path(old(self)@, event),
            reply.action@ == download_action(old(self)@, event),
            reply.proceed,
    {
        let action = match event {
            DownloadEvent::Requested { destination, download_dir } => {
                let name = saved_name(file_name(destination.as_str()));
                let path = join_path(download_dir.as_str(), name.as_str());
                self.saved_path = path.clone();
                DownloadAction::SaveTo { path }
            },
            DownloadEvent::Finished { success } => {
                if success {
                    let path = self.saved_path.clone();
                    let message = open_prompt_text(file_name(path.as_str()));
                    DownloadAction::OfferOpen {
                        path,
                        title: String::from_str(OPEN_DIALOG_TITLE),
                        message,
                    }
                } else {
                    DownloadAction::Ignore
                }
            },
            DownloadEvent::Other => DownloadAction::Ignore,
        };
        DownloadReply { action, proceed: true }
    }
}

/// The name a download is saved under, given the file name that the path
/// rules found in its proposed destination (nothing where they found none).
pub fn saved_name(found: Option<String>) -> (name: String)
    ensures
        name@ == name_or_fallback(found.deep_view()),
{
    match found {
        Some(name) => name,
        None => String::from_str(FALLBACK_FILE_NAME),
    }
}

/// The text of the dialog that offers to open a finished download, given
/// the file name that the path rules found in its path (nothing where they
/// found none).
pub fn open_prompt_text(shown: Option<String>) -> (message: String)
    ensures
        message@ == prompt_for(shown.deep_view()),
{
    let name = match shown {
        Some(name) => name,
        None => String::new(),
    };
    String::from_str(OPEN_PROMPT_OPEN).concat(name.as_str()).concat(OPEN_PROMPT_CLOSE)
}

/// What the answer to the open dialog asks for: the file to open when the
/// user confirmed, nothing otherwise.
pub fn open_on_confirm(confirmed: bool, path: &str) -> (to_open: Option<String>)
    ensures
        to_open.deep_view() == (if confirmed { Some(path@) } else { None::<Seq<char>> }),
{
    if confirmed {
        Some(String::from_str(path))
    } else {
        None
    }
}

/// Events other than a download request never change the remembered save
/// path.
pub proof fn lemma_replay_without_requests(saved: Seq<char>, events: Seq<DownloadEvent>)
    requires
        forall|i: int| 0 <= i < events.len() ==> !(#[trigger] events[i] is Requested),
    ensures
        replay(saved, events) == saved,
    decreases events.len(),
{
    if events.len() > 0 {
        assert(!(events[0] is Requested));
        let rest = events.drop_first();
        assert forall|i: int| 0 <= i < rest.len() implies !(#[trigger] rest[i] is Requested) by {
            assert(rest[i] == events[i + 1]);
        }
        lemma_replay_without_requests(next_saved_path(saved, events[0]), rest);
    }
}

/// A successful end of a download, however many other reports come between
/// it and the latest request, offers to open exactly the file that the
/// request was saved to.
pub proof fn lemma_finish_offers_saved_file(
    saved: Seq<char>,
    destination: String,
    download_dir: String,
    between: Seq<DownloadEvent>,
)
    requires
        forall|i: int| 0 <= i < between.len() ==> !(#[trigger] between[i] is Requested),
    ensures
        ({
            let request = DownloadEvent::Requested { destination, download_dir };
            let path = save_path(destination@, download_dir@);
            download_action(
                replay(saved, seq![request] + between),
                DownloadEvent::Finished { success: true },
            ) == (DownloadActionView::OfferOpen {
                path: path,
                title: OPEN_DIALOG_TITLE@,
                message: open_prompt(path),
            })
        }),
{
    let request = DownloadEvent::Requested { destination, download_dir };
    let events = seq![request] + between;
    assert(events[0] == request);
    assert(events.drop_first() =~= between);
    lemma_replay_without_requests(save_path(destination@, download_dir@), between);
}

/// An unsuccessful end of a download, or any other report, neither changes
/// the remembered save path nor asks for anything.
pub proof fn lemma_ignored_events(saved: Seq<char>, event: DownloadEvent)
    requires
        event matches DownloadEvent::Finished { success } ==> !success,
        !(event is Requested),
    ensures
        next_saved_path(saved, event) == saved,
        download_action(saved, event) == DownloadActionView::Ignore,
{
}

} // verus!

verus! {

/// A download is saved under exactly the file name of its proposed
/// destination, inside the download directory; the fallback name is used
/// only where the destination has no file name. The request's answer saves
/// it there and the tracker remembers that path.
pub proof fn lemma_saved_under_own_name(
    saved: Seq<char>,
    destination: String,
    download_dir: String,
)
    ensures
        ({
            let event = DownloadEvent::Requested { destination, download_dir };
            let expected = match path_file_name(destination@) {
                Some(name) => path_join(download_dir@, name),
                None => path_join(download_dir@, "downloaded_file.unknown"@),
            };
            &&& save_path(destination@, download_dir@) == expected
            &&& next_saved_path(saved, event) == expected
            &&& download_action(saved, event) == (DownloadActionView::SaveTo { path: expected })
        }),
        forall|name: Seq<char>|
            path_file_name(destination@) == Some(name) ==> #[trigger] saved_file_name(destination@)
                == name,
        path_file_name(destination@) is None ==> saved_file_name(destination@)
            == "downloaded_file.unknown"@,
{
}

/// The saved-name choice keeps any name it is given and falls back only on
/// none.
pub proof fn lemma_name_or_fallback(name: Seq<char>)
    ensures
        name_or_fallback(Some(name)) == name,
        name_or_fallback(None) == "downloaded_file.unknown"@,
{
}

/// The end of a successful download offers to open the remembered file,
/// in a dialog titled "Open File?" whose text names that file's name (or
/// no name where its path has none).
pub proof fn lemma_finish_prompt(saved: Seq<char>)
    ensures
        ({
            let shown = match path_file_name(saved) {
                Some(name) => name,
                None => Seq::<char>::empty(),
            };
            download_action(saved, DownloadEvent::Finished { success: true })
                == (DownloadActionView::OfferOpen {
                path: saved,
                title: "Open File?"@,
                message: "Download complete: "@ + shown + ". Do you want to open it?"@,
            })
        }),
        forall|name: Seq<char>|
            #![trigger prompt_for(Some(name))]
            prompt_for(Some(name)) == "Download complete: "@ + name + ". Do you want to open it?"@,
        prompt_for(None) == "Download complete: "@ + Seq::<char>::empty()
            + ". Do you want to open it?"@,
{
}

} // verus!
