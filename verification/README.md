# flexstr

A flexible, clone-efficient string library whose rules are stated in Verus contracts and proved.

A flexible string holds its bytes in one of four storage types: a wrapped `'static` literal, an
inline array of up to `SIZE` bytes (no heap allocation), a heap value (`Rc`, `Arc` or `Box` over a byte vector), or a
borrowed slice. The string kinds are UTF-8 text (`str`), raw bytes, C strings (one NUL byte, at
the end), byte strings (`bstr`), OS strings and paths.

Layout:

- `src/inner.rs` — the base type `FlexStrInner` and its type invariant; `src/string/` — the
  string kinds (trait `Str`) and the typed wrappers (`FlexStr`, `FlexCStr`, ...).
- `src/storage/` — the four storage types; `src/builder.rs` — the formatting buffer and builder;
  `src/small_box.rs`, `src/boxed.rs` — compact boxes for owned strings.
- `src/impls.rs`, `src/ordering.rs` — equality, ordering, concatenation and friends.
- `src/message.rs` — the error types' messages.
- `src/laws.rs` — properties that relate several operations.
- `app/` — the trait impls that need outside derives or formatters (`serde`, `Display`, `ufmt`).
