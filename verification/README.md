# mock_derive

The `#[mock]` attribute: applied to a trait, an implementation of a trait or an
`extern` block, it keeps the item and, in test builds, adds a mock of it (of
the implemented trait, for an implementation). A trait's mock is a struct
`MockTrait` with one recorder per method (`method_x()` to make one, `set_x(..)`
to install it), a fallback object when the trait allows one, and an impl of the
trait (and of the supertraits mocked before it) that answers from the recorders.
An `extern` block's functions are answered from recorders kept in a shared
singleton.

Layout of `src/`; every function outside `syntax` (and the one-line
`tokens::push_char`) is proved against its contract:

- `tokens` — token text, decimal numbers, removal of substrings;
- `model` — the parsed item as plain values;
- `syntax` — the trusted boundary to `syn` and `quote`;
- `args` — parameter lists and return types;
- `templates` — the fixed text of the generated code;
- `traits`, `registry` — mocks of traits and the registry of mocked traits;
- `foreign` — mocks of `extern` blocks;
- `expand` — the attribute from source text to source text;
- `recorder` — the rules of the per-method recorder, as a library type;
- `laws` — properties that hold of all inputs.

`app/` turns the compiler's token streams into text and back and holds the
registry shared by all uses of the attribute.
