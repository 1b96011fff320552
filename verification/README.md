# dioxus_test

A library for testing Dioxus applications, in two parts.

- `src/` is the verified core, checked with Verus. It models what the tester
  reasons about as plain values and proves what each operation computes:
  the accessibility tree and the accessible names of its nodes, the search
  for elements by ARIA role, query chains and their resolution against a
  document (the walk down a chain level by level, with the document's
  selector parsing and matching behind trusted calls) and the errors it
  reports, the CSS selectors of test-ID queries, the attributes and Dioxus
  identifiers of elements, keyboard-focus changes, and the messages of the
  tester's errors.
- `app/` drives a live document rendered headlessly with Blitz: it lays the
  document out, dispatches events, renders the DOM that errors show,
  converts the document's accessibility tree into the core's model, and provides the
  `test_that` matchers.

`tests/` exercises the core on concrete values.
