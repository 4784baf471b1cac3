# sprout

Scaffolding of Spring Boot code (entity, repository, DTOs, mapper, service,
controller and their tests) into an existing project, with the decisions
proved by Verus.

- `src/` is the verified library: project discovery from the Java sources,
  folder conventions, package layout per architecture, resource names, the
  files each schematic writes, the build-manifest checks and edits for Maven
  and Gradle, the dependency audit, the doctor's verdict, the write policy and
  the update notice. Contracts are stated over `Seq<char>` views; the laws
  (what installing a dependency does to the audit, where a snippet goes in a
  pom, which folder a convention picks, ...) are public proof functions.
- `app/` is the command-line program around it: argument parsing, terminal
  prompts, template rendering, the background update check and every read and
  write of the disk.
- `tests/` runs the library on concrete values.
