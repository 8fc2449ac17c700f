use vstd::prelude::*;
use crate::labels::OUTER_HTML_SCRIPT;
use crate::paths::{join_path, path_join};

verus! {

/// Directory that webview dumps are written to.
pub const DUMP_DIR: &'static str = "/tmp";

/// Window label used in a dump when the webview's window cannot be had.
pub const UNKNOWN_WINDOW_LABEL: &'static str = "unknown_window";

/// What the host asks of the webview it is to dump: the webview, by its
/// label, and the script whose value is the page's markup.
#[derive(Debug, Clone, PartialEq, Eq)]
pub struct DumpQuery {
    pub webview: String,
    pub script: String,
}

/// The question a dump of the webview labelled `webview_label` puts to it:
/// that webview is asked for the whole markup of its page.
pub fn dump_query(webview_label: &str) -> (query: DumpQuery)
    ensures
        query.webview@ == webview_label@,
        query.script@ == OUTER_HTML_SCRIPT@,
{
    DumpQuery { webview: String::from_str(webview_label), script: String::from_str(OUTER_HTML_SCRIPT) }
}

/// What the host found out about a webview it is asked to dump. Each field
/// is the text of the value, or the text of the error the host got instead.
#[derive(Debug, PartialEq, Eq)]
pub struct WebviewSnapshot {
    /// Label of the window that holds the webview.
    pub window_label: Result<String, String>,
    /// Address of the page the webview shows.
    pub url: Result<String, String>,
    /// The page's markup, as the webview's script evaluation gave it.
    pub html: Result<String, String>,
}

/// What a dump writes, and what it answers once the file is written.
#[derive(Debug, PartialEq, Eq)]
pub struct DumpPlan {
    /// File to write.
    pub path: String,
    /// Text to write into it.
    pub contents: String,
    /// A line for the error log, where the host should print one.
    pub warning: Option<String>,
    /// Start of the error answered when the file cannot be written.
    pub write_failure: String,
    /// What the dump answers when the file is written.
    pub outcome: Result<(), String>,
}

/// The mathematical value of a `DumpPlan`.
pub struct DumpPlanView {
    pub path: Seq<char>,
    pub contents: Seq<char>,
    pub warning: Option<Seq<char>>,
    pub write_failure: Seq<char>,
    pub outcome: Result<(), Seq<char>>,
}

/// A result with a text error, taken by the view of its error.
pub open spec fn outcome_view(r: Result<(), String>) -> Result<(), Seq<char>> {
    match r {
        Ok(()) => Ok(()),
        Err(e) => Err(e@),
    }
}

impl View for DumpPlan {
    type V = DumpPlanView;

    open spec fn view(&self) -> DumpPlanView {
        DumpPlanView {
            path: self.path@,
            contents: self.contents@,
            warning: self.warning.deep_view(),
            write_failure: self.write_failure@,
            outcome: outcome_view(self.outcome),
        }
    }
}

/// The window label a dump names: the window's label, or the stand-in.
pub open spec fn dump_window_label(snapshot: WebviewSnapshot) -> Seq<char> {
    match snapshot.window_label {
        Ok(label) => label@,
        Err(_) => UNKNOWN_WINDOW_LABEL@,
    }
}

/// The page address a dump names: the address, or a note of the error.
pub open spec fn dump_url(snapshot: WebviewSnapshot) -> Seq<char> {
    match snapshot.url {
        Ok(url) => url@,
        Err(e) => "Error getting URL: "@ + e@,
    }
}

/// The comment lines that open a dump.
pub open spec fn dump_header(window: Seq<char>, webview: Seq<char>, url: Seq<char>) -> Seq<char> {
    "<!-- Window Label: "@ + window + " -->\n<!-- Webview Label: "@ + webview
        + " -->\n<!-- Webview URL: "@ + url + " -->\n"@
}

/// File name of the dump of a webview that was found.
pub open spec fn found_file_name(window: Seq<char>, webview: Seq<char>) -> Seq<char> {
    "webview_content_window_"@ + window + "_webview_"@ + webview + ".html"@
}

/// File name of the note written when no webview has the label.
pub open spec fn missing_file_name(webview: Seq<char>) -> Seq<char> {
    "webview_content_webview_"@ + webview + "_not_found.txt"@
}

/// The error answered when no webview has the label.
pub open spec fn missing_message(webview: Seq<char>) -> Seq<char> {
    "Webview with label "@ + webview + " not found."@
}

/// What a dump of the webview labelled `webview` writes and answers, given
/// what the host found (nothing where no webview has that label).
pub open spec fn dump_plan(webview: Seq<char>, found: Option<WebviewSnapshot>) -> DumpPlanView {
    match found {
        None => DumpPlanView {
            path: path_join(DUMP_DIR@, missing_file_name(webview)),
            contents: missing_message(webview),
            warning: None,
            write_failure: "Failed to write error to "@,
            outcome: Err(missing_message(webview)),
        },
        Some(snapshot) => {
            let window = dump_window_label(snapshot);
            let header = dump_header(window, webview, dump_url(snapshot));
            let warning = match snapshot.window_label {
                Ok(_) => None,
                Err(e) => Some("Error getting window for webview "@ + webview + ": "@ + e@),
            };
            let path = path_join(DUMP_DIR@, found_file_name(window, webview));
            match snapshot.html {
                Ok(html) => DumpPlanView {
                    path,
                    contents: header + html@,
                    warning,
                    write_failure: "Failed to write HTML content to "@,
                    outcome: Ok(()),
                },
                Err(e) => DumpPlanView {
                    path,
                    contents: header + "<!-- Error getting HTML content via eval: "@ + e@ + " -->"@,
                    warning,
                    write_failure: "Failed to write error content to "@,
                    outcome: Err(
                        "Failed to eval script for HTML content in webview "@ + webview + ": "@
                            + e@,
                    ),
                },
            }
        },
    }
}

/// What a dump answers once the host tried to write its file.
pub open spec fn dump_result(plan: DumpPlanView, written: Result<(), Seq<char>>) -> Result<(), Seq<char>> {
    match written {
        Ok(()) => plan.outcome,
        Err(e) => Err(plan.write_failure + plan.path + ": "@ + e),
    }
}

/// Plans the dump of the webview labelled `webview_label` into a file under
/// the dump directory. `found` is what the host found out about that
/// webview, or nothing where no webview has the label.
pub fn debug_get_webview_content(webview_label: &str, found: Option<WebviewSnapshot>) -> (plan:
    DumpPlan)
    ensures
        plan@ == dump_plan(webview_label@, found),
{
    match found {
        None => {
            let file = String::from_str("webview_content_webview_").concat(webview_label).concat(
                "_not_found.txt",
            );
            let path = join_path(DUMP_DIR, file.as_str());
            let message = String::from_str("Webview with label ").concat(webview_label).concat(
                " not found.",
            );
            DumpPlan {
                path,
                contents: message.clone(),
                warning: None,
                write_failure: String::from_str("Failed to write error to "),
                outcome: Err(message),
            }
        },
        Some(snapshot) => {
            let ghost s = snapshot;
            let (window, warning) = match &snapshot.window_label {
                Ok(label) => (label.clone(), None),
                Err(e) => (
                    String::from_str(UNKNOWN_WINDOW_LABEL),
                    Some(
                        String::from_str("Error getting window for webview ").concat(
                            webview_label,
                        ).concat(": ").concat(e.as_str()),
                    ),
                ),
            };
            let file = String::from_str("webview_content_window_").concat(window.as_str()).concat(
                "_webview_",
            ).concat(webview_label).concat(".html");
            let path = join_path(DUMP_DIR, file.as_str());
            let url = match &snapshot.url {
                Ok(url) => url.clone(),
                Err(e) => String::from_str("Error getting URL: ").concat(e.as_str()),
            };
            let header = String::from_str("<!-- Window Label: ").concat(window.as_str()).concat(
                " -->\n<!-- Webview Label: ",
            ).concat(webview_label).concat(" -->\n<!-- Webview URL: ").concat(url.as_str()).concat(
                " -->\n",
            );
            assert(window@ == dump_window_label(s));
            assert(url@ == dump_url(s));
            match &snapshot.html {
                Ok(html) => DumpPlan {
                    path,
                    contents: header.concat(html.as_str()),
                    warning,
                    write_failure: String::from_str("Failed to write HTML content to "),
                    outcome: Ok(()),
                },
                Err(e) => DumpPlan {
                    path,
                    contents: header.concat("<!-- Error getting HTML content via eval: ").concat(
                        e.as_str(),
                    ).concat(" -->"),
                    warning,
                    write_failure: String::from_str("Failed to write error content to "),
                    outcome: Err(
                        String::from_str(
                            "Failed to eval script for HTML content in webview ",
                        ).concat(webview_label).concat(": ").concat(e.as_str()),
                    ),
                },
            }
        },
    }
}

/// What the dump answers once the host tried to write `plan`'s file:
/// the planned outcome when the file was written, otherwise an error that
/// names the file and the write's error.
pub fn finish_webview_dump(plan: &DumpPlan, written: Result<(), String>) -> (answer: Result<
    (),
    String,
>)
    ensures
        outcome_view(answer) == dump_result(plan@, outcome_view(written)),
{
    match written {
        Ok(()) => match &plan.outcome {
            Ok(()) => Ok(()),
            Err(e) => Err(e.clone()),
        },
        Err(e) => Err(
            plan.write_failure.clone().concat(plan.path.as_str()).concat(": ").concat(e.as_str()),
        ),
    }
}

/// A dump succeeds exactly when the webview was found, its markup was had,
/// and the file was written.
pub proof fn lemma_dump_succeeds_iff(
    webview: Seq<char>,
    found: Option<WebviewSnapshot>,
    written: Result<(), Seq<char>>,
)
    ensures
        dump_result(dump_plan(webview, found), written) is Ok <==> (found matches Some(s)
            && s.html is Ok && written is Ok),
{
}

/// Every dump is written into the dump directory, and a failed write is
/// answered with an error that names the file that could not be written.
pub proof fn lemma_dump_location(
    webview: Seq<char>,
    found: Option<WebviewSnapshot>,
    error: Seq<char>,
)
    ensures
        exists|name: Seq<char>| dump_plan(webview, found).path == path_join(DUMP_DIR@, name),
        dump_result(dump_plan(webview, found), Err(error)) == Err::<(), Seq<char>>(
            dump_plan(webview, found).write_failure + dump_plan(webview, found).path + ": "@
                + error,
        ),
{
    match found {
        None => {
            assert(dump_plan(webview, found).path == path_join(
                DUMP_DIR@,
                missing_file_name(webview),
            ));
        },
        Some(s) => {
            assert(dump_plan(webview, found).path == path_join(
                DUMP_DIR@,
                found_file_name(dump_window_label(s), webview),
            ));
        },
    }
}

} // verus!

verus! {

/// A found webview is dumped, whatever its markup, to
/// `/tmp/webview_content_window_<window>_webview_<label>.html`, as three
/// comment lines naming the window, the webview and the page address,
/// followed by the whole markup as it was read, or by a comment line that
/// names the evaluation error. The window is named by its label, or
/// `unknown_window`; the address is the page's, or a note of its error.
pub proof fn lemma_found_dump_contents(webview: Seq<char>, snapshot: WebviewSnapshot)
    ensures
        ({
            let window = match snapshot.window_label {
                Ok(w) => w@,
                Err(_) => "unknown_window"@,
            };
            let url = match snapshot.url {
                Ok(u) => u@,
                Err(e) => "Error getting URL: "@ + e@,
            };
            let header = "<!-- Window Label: "@ + window + " -->\n<!-- Webview Label: "@ + webview
                + " -->\n<!-- Webview URL: "@ + url + " -->\n"@;
            let plan = dump_plan(webview, Some(snapshot));
            &&& plan.path == path_join(
                "/tmp"@,
                "webview_content_window_"@ + window + "_webview_"@ + webview + ".html"@,
            )
            &&& (snapshot.html matches Ok(h) ==> plan.contents == header + h@ && plan.outcome
                == Ok::<(), Seq<char>>(()))
            &&& (snapshot.html matches Err(e) ==> plan.contents == header
                + "<!-- Error getting HTML content via eval: "@ + e@ + " -->"@ && plan.outcome
                == Err::<(), Seq<char>>(
                "Failed to eval script for HTML content in webview "@ + webview + ": "@ + e@,
            ))
        }),
{
}

/// The markup of a found page is written whole: the file holds the header
/// followed by exactly that markup, so two pages whose markup differs give
/// files that differ, and the file is as long as the header and the markup.
pub proof fn lemma_markup_kept_whole(
    webview: Seq<char>,
    window_label: Result<String, String>,
    url: Result<String, String>,
    html: String,
    other: String,
)
    requires
        html@ != other@,
    ensures
        ({
            let a = dump_plan(
                webview,
                Some(WebviewSnapshot { window_label, url, html: Ok(html) }),
            );
            let b = dump_plan(
                webview,
                Some(WebviewSnapshot { window_label, url, html: Ok(other) }),
            );
            &&& a.contents != b.contents
            &&& a.contents.len() == b.contents.len() - other@.len() + html@.len()
            &&& a.contents.subrange(a.contents.len() - html@.len(), a.contents.len() as int)
                == html@
        }),
{
    let a = dump_plan(webview, Some(WebviewSnapshot { window_label, url, html: Ok(html) }));
    let b = dump_plan(webview, Some(WebviewSnapshot { window_label, url, html: Ok(other) }));
    let s = WebviewSnapshot { window_label, url, html: Ok(html) };
    let header = dump_header(dump_window_label(s), webview, dump_url(s));
    assert(a.contents == header + html@);
    assert(b.contents == header + other@);
    assert(a.contents.subrange(header.len() as int, a.contents.len() as int) =~= html@);
    assert(b.contents.subrange(header.len() as int, b.contents.len() as int) =~= other@);
}

/// A missing webview is answered with the error "Webview with label <label>
/// not found.", which is also the text written to
/// `/tmp/webview_content_webview_<label>_not_found.txt`.
pub proof fn lemma_missing_dump(webview: Seq<char>)
    ensures
        ({
            let plan = dump_plan(webview, None);
            let message = "Webview with label "@ + webview + " not found."@;
            &&& plan.path == path_join(
                "/tmp"@,
                "webview_content_webview_"@ + webview + "_not_found.txt"@,
            )
            &&& plan.contents == message
            &&& plan.outcome == Err::<(), Seq<char>>(message)
        }),
{
}

} // verus!
