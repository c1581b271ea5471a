# rusty_editor

A video editor's model, proved with Verus: projects are trees of videos (lists,
aspect ratios, effects, texts, images, frame directories, ffmpeg videos) whose
properties are curves.

- `src/` is the verified library: the project file format (`files`), the video tree
  and its changes (`video`, `tree_edit`, `useful`), content (`content`), curves and
  shared curves (`curve`), effects on pixels and compositing (`effect`,
  `image_buffer`), the command line (`cli`, `interactive`), quick commands and the
  worker that offers their completions (`quick_commands`, `quick_commands_worker`),
  and the editor's drawing-mode transitions (`draw_mode`). Numbers are kept as the
  text the file gives; they are read as floats where frames are drawn.
- `app/` is the program around it: arguments, files, directories, fonts, external
  programs, the worker's thread, and drawing frames (curve values and positions are
  floats).
- `tests/` runs the library on concrete values.
