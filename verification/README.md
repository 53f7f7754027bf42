# bengine

The verified core of the bengine game engine, written in Verus.

`src/` is the library, every function of it proved against its contract:

- `vector`, `bivector`, `rotor`, `number`, `vec2`: 3D and 2D geometric
  algebra over `i32`, each operation specified over the mathematical
  integers (`Vector<int>`, `Number<int>`, ...) and free of overflow.
  `identities` proves the algebra's laws: the geometric product splits into
  its symmetric and antisymmetric parts, `rotate` is the sandwich product
  `R v R~`, and rotating scales squared lengths by `|R|^4`.
  `product_laws` proves that the geometric product is associative with the
  scalar `1` as its unit, and that rotations are linear, that the unit
  rotor changes nothing and that rotating by `r1` then `r2` is rotating by
  `r2 r1`.
- `collision`: the simplex that GJK grows and shrinks, and the polytope
  bookkeeping of an EPA step: removing the faces the new point sees,
  collecting the hole's boundary edges and closing it with new faces.
- `gltf`: buffer-view image keys, alignment padding, and the layout of a
  mesh's vertex and index bytes in one shared buffer.
- `event_loop`, `game`: the player's input flags packed in a byte, the keys
  that drive them, and the game-state changes the event loop reacts to.
- `renderer`: the choices the renderer makes from what the Vulkan driver
  reports (memory type, surface format, swapchain settings, depth format,
  multisampling, queue families, the physical device to use,
  layout-transition barriers, the commands that upload an image with its mip
  chain) and its frame pacing.

`app/` is a command-line program around it that checks two OBJ meshes for
contact with GJK/EPA on floats. It also holds the floating-point geometry and
the adapters that turn what the Vulkan driver reports into the library's
plain values; the program itself does not open a window.
