# StreamPainter

StreamPainter draws over the projectors of OBS on Windows. A transparent overlay takes the pointer,
shows what is drawn at once, and sends it to a page that OBS shows.

This crate holds the decisions of the program, written in Verus and proved:

- `src/` is the library. The system, the renderer, the canvas engine and the connected pages are
  parties that it does not call itself. What they report comes in as plain values, and what they are
  to do goes out as values: effects of the overlay, calls of a transaction, operations of a frame,
  controls of a window.
- `tests/` runs the library on concrete cases.
- `app/` is the program around the library: the windows, the menus, Direct2D, the registry, the
  clipboard and the network. It carries out what the library says and reports what came of it.

Some of what is proved, each under a name that begins with `law_`:

- a change of the hotkey that fails leaves the old key in force, and what is registered is always
  known (`hotkey`);
- saving changes the hotkey, the registration with Windows and the file together or not at all,
  unless something that is to be taken back cannot be (`settings_save`);
- a stored command line is read back as it was written, and names the executable alone
  (`autostart`);
- while an item is transformed, the canvas looks as it will afterwards, and items added one by one
  leave what drawing them all anew leaves (`render`);
- drawing ends with the projector, and nothing is drawn outside of drawing (`canvas_actions`).
