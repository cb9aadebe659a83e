# mochify

A command-line client and MCP server for the mochify.app image and PDF
processing API.

- `src/` is the library, verified with Verus: processing parameters and
  their merge rule (`params`), the `/v1/squish` and `/v1/pdf` queries
  (`query`), expansion of prompt answers into size × format variants
  (`variants`), the per-file variant map (`prompt_map`), PDF operation
  resolution (`pdf`), output naming and input kinds (`naming`), error
  messages and status classes (`errors`), summaries (`summary`), command-line
  decisions (`cli`), browser sign-in helpers (`auth`), the saved
  credentials line (`credentials`), MCP tool inputs (`mcp`), and text
  helpers (`text`): decimal rendering, trimming, ASCII case folding, and
  Unicode case mapping, which is named rather than spelled out and stated
  exactly on ASCII text.
- `app/` is the program: argument parsing, HTTP requests, files, progress
  spinners, reading and writing the credentials file, listing the output
  directory, and the MCP server over stdio.
- `tests/` runs the library on concrete inputs.
