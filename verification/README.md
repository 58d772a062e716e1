# argusflow

A tool for finding, storing and analysing research papers: it searches
arXiv and Semantic Scholar, keeps papers in a SQLite database, builds
citation graphs, crawls citation networks and computes citation
statistics, and writes papers as terminal text, JSON, BibTeX or Markdown.

## Layout

- `src/` — the library, verified with Verus:
  - `text.rs`: searching, splitting, trimming and writing text, stated over
    `Seq<char>`;
  - `models.rs`: papers, authors and citation links, with their views;
  - `citation/`: the citation graph, its statistics (h-index, most cited,
    uncited papers) and the crawler's step-by-step decisions;
  - `source/`: what the sources are asked and answer, query encoding,
    the arXiv Atom feed reader, Semantic Scholar answers, and the retry
    policy of requests;
  - `output/`: output formats and the terminal, Markdown and BibTeX text;
  - `db/`: database rows and how they become papers and back;
  - `command/`: the decisions and texts of the commands;
  - `pdf.rs`: the file names PDFs are saved under.
- `app/` — the command-line program: argument parsing, HTTP requests,
  the database through SeaORM, JSON output and printing.
- `tests/` — tests of the library on concrete values.
