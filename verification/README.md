# pal_passes

The passes of a compiler that turns annotated C into Pulse, a language for verified
programs in F*. Every pass is written in Verus and proved against a model of what it
computes.

The passes, in the order in which they run:

- `restructure_goto` turns gotos into exits of labelled blocks.
- `merge` joins the declarations of several files and orders type definitions.
- `elab` settles pointer kinds and makes conversions explicit.
- `check` reports undeclared names and types that disagree; it can run after any pass.
- `emit` writes one module for each declaration.
- `report` lists what the result assumes without proof.

They work on the syntax trees of `ir`, in the scopes of `env`. Texts are ropes (`text`),
sequences are persistent lists (`list`), and output is built from documents (`doc`) that
`render` lays out.

Each executable function `f` is proved equal to its model `spec_f`. What the models promise is
stated beside them:

- No pass drops a message (`extends` in `diag`).
- `check` is silent exactly where `well_formed_decls` holds; checking types too hides no message
  (`laws_check`), and the order of declarations does not matter to it where their names differ
  (`laws_scope`, `laws_step`, `laws_order`, `laws_permute`).
- Restructuring only groups statements, leaves no jump to a label that still follows it in its
  list, and reports each jump that does not leave its innermost block; a second time it changes
  nothing (`laws_goto`, `laws_passes`).
- Merging declares everything once, and nothing beside its definition; type definitions come
  before what refers to them, where they do not refer to each other in a cycle. Merging what was
  merged without a message then changes nothing (`laws_merge`, `laws_passes`, `laws_syntax`,
  `laws_twice`).
- Elaboration keeps what is declared, and gives every pointer among the layers of a type a kind
  (`laws_types`).
- Different names get different texts, and the same name the same text; modules have different
  names, and every function whose address is taken has that of its wrapper; the output is what
  the layout writes (`laws_names`, `laws_emit`).
- The body of a pure function takes no more steps than it has statements (`laws_pure`).
- Structs and unions come with the axioms that their fields allow, and no others of these kinds
  (`laws_records`).
- The report is sorted and complete (`laws_report`).

`app` holds what depends on the process that the compiler runs in.
