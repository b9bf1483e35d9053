# glium_vao

The vertex array object (VAO) system of an OpenGL wrapper, verified with Verus.

The library keeps the cache of VAOs, one per combination of vertex buffers (each with its
format, offset, stride and divisor; the order in which they were added does not matter),
index buffer and program,
and decides which OpenGL commands binding vertex sources
for a draw call takes: reuse a cached VAO, build a new one, or bind buffers and attributes
one by one where the context has no VAOs. It never calls OpenGL: each decided command is
appended to `CommandContext::commands`; the new VAO names come from a callback, which must
hand out non-zero names that no cached VAO has (as `glGenVertexArrays` does).

- `src/vertex_array_object.rs`: the cache (`VertexAttributesSystem`), the binder (`Binder`),
  VAO creation, binding and destruction, and the specification of each as a function from
  context to context.
- `src/context.rs`: the model of a context (version, extensions, bindings, command log).
- `src/program.rs`, `src/vertex.rs`: what is read of programs and vertex formats.
- `src/glenum.rs`: OpenGL enumerants.
- `src/laws.rs`: properties proved across operations (purges keep exactly what they do not
  doom and delete each doomed VAO once, purges commute, a second bind of the same sources,
  in any order, is silent, ...). The cache's well-formedness (one entry per key, distinct non-zero VAO names) is
  a type invariant.
- `app/`: executes the decided commands through the `gl` crate.
