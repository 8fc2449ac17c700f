# chatgpt

The decisions of the ChatGPT desktop shell, written in Verus and proved
against their contracts:

- `command`: which webview each command talks to and the script or setting
  it sends;
- `layout`: how the ask bar, the title bar and the chat page share the
  window's height;
- `debug_dump`: what a dump of a webview writes, where, and what it answers;
- `download`: where downloads are saved and which file the end of a download
  offers to open;
- `paths`: the two path operations of the standard library that the above
  rely on.

`app/` is the Tauri program around the library: it builds the windows,
evaluates the scripts, writes the files and shows the dialogs.
