# riff_bindgen

Binding generators for a Rust library exported over a C ABI, with their
behaviour specified and proved in Verus.

From a model of the exported API (`model`: records, enumerations, functions,
classes, streams, callback traits) the library produces:

- Kotlin sources (`kotlin`): data classes, enums and sealed classes, wire
  readers and writers, functions, classes, the JNI `Native` object and
  callback interfaces;
- Swift views and texts (`swift`, `plain_swift`): type mapping, parameter
  marshalling, result ABI, method bodies, function and callback-trait views;
- Java plans and texts (`java`);
- the C entry points that the export attributes add to a crate
  (`ffi_macros`, `class_exports`), as Rust source text, from the annotated
  item's own source text (`macro_input`, which parses it with `syn`);
- the registry of exported callback traits (`callback_registry`), read from
  the crate's source texts, and the decisions of the `generate` command
  (`generate`), event by event.

Every generated text is specified exactly as a sequence of characters, and
the laws that relate the pieces (symbol names shared by exporter and
bindings, wrappers opened and closed in pairs, path resolution in the
registry) are stated and proved as proof functions.

`app/` holds what touches the outside world: reading a crate's source files
from disk, creating directories and running the generator process for the
`generate` command, printing, and handing an annotated item's text to the
library and turning the text it returns into tokens inside attribute
macros.
