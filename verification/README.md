# deskgate

DeskGate puts desktop icons into translucent "fences" on the Windows desktop:
titled, blurred panels that hold shortcuts, folders or notes, can be rolled up
to their title bar, reordered by dragging, and customised from a context menu.

The project is split in two:

- `src/` is the verified library (Verus). It holds the rules of the program:
  the configuration model and its defaults, the translated strings and the
  language choice, the context and tray menus and how their commands decode,
  the customisation settings, window geometry (snapping, hit zones, the icon
  grid), what presses, drags, releases and double-clicks do, the note and
  to-do editor, drag and drop bookkeeping, storage paths and file attributes,
  shortcut parsing, the icon cache, the modal dialogs' behaviour and the
  autostart command. Each public function carries a contract, and the laws
  that tie functions together are proved as public proof functions.
- `app/` is the Windows program around it: window procedures, Direct2D and
  Composition painting, COM (shell links, drag and drop, the desktop view),
  the registry, file I/O and JSON (de)serialisation. It asks the library for
  every decision and performs the resulting actions.

`tests/` exercises the library on concrete values.
