# monkesto

The domain logic of a multi-user bookkeeping service, written in Verus and proved
against its contracts.

- `src/` is the verified library: identifiers and names, permissions, journals and
  their members, accounts, funds, activities, double-entry transactions and the read
  model they project to, file uploads, grants and roles (with two role projections that
  are proved to agree), the statistics read from Jewel church databases, the stored
  forms of journal events and errors (read back field by field), the errors that pages
  pass to each other, and the older account and user event streams.
- `tests/` exercises the library on concrete values.
- `app/` holds what the library leaves to its caller: serializable copies of its types,
  the loops that talk to an event store, and reading Jewel databases, whose money is
  floating point.
