# mecomp_tui

The terminal client of the mecomp music daemon, as a verified library and a
thin program around it.

- `src/` is the library, verified with Verus: the actions and the state
  stores (which requests an action becomes, how the player state follows the
  daemon's announcements, the view history, the popup stack, the focus
  cycle, where the dispatcher routes each action), the components and views
  of the interface (what each key and click does, the sort modes and the
  stable sorts behind them, the trees the views show, the text input boxes,
  which part of the screen a click lands in, given the parts the terminal
  library's layout cuts it into) and the colour theme. The contracts name
  the constraints each area is cut under and which part is which; of the
  parts themselves they state that there is one per constraint and that
  each lies inside the area that was cut. Where the layout's solver puts
  their edges is taken as given.
- `app/` is the program: argument handling, the connection to the daemon,
  the asynchronous loops that run the stores and read the terminal, and the
  drawing. It hands the library plain values and carries out what the
  library decides.
- `tests/` runs the library on concrete inputs.
