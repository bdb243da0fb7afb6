# raytracer

An interactive ray tracer: a window (egui/eframe) in which STL meshes are loaded,
textured, moved, lit and rendered with recursive reflection and refraction.

- `src/` is the library, verified with Verus. It holds what the program decides
  with whole numbers and text: reading the numbers typed into the interface (a
  decimal `i32` reader proved equal to its specification), the scene's cameras,
  lights and objects as numbered collections (which camera is active, which light
  or object an operation reaches, what a refused operation leaves unchanged), the
  grouping of an OBJ file's texture-coordinate indices into triangles, the choice
  of files offered for loading, the texel and mip level a texture lookup reads, and
  the saturation of pixel channels.
- `app/` is the program around it: the window, file reading, the YAML scene
  format, and all floating-point work (camera and mesh transforms, ray casting,
  shading, texture filtering and mipmaps).
- `tests/` runs the library on concrete values.
