# wthrr

A weather companion for the terminal: it finds a place, asks Open-Meteo for
its forecast and draws it in framed panels (the current weather, the hours of
a day as a graph, the coming days, the week, and days in the past).

- `src/` is the library, verified with Verus: the settings (command line and
  configuration file merged), the choice of the address, the texts and their
  translations, the requests' URLs, the dates, and every panel, down to the
  characters of each line. Each public function states what it returns.
- `tests/` runs the library on concrete values.
- `app/` is the program around it: the command line, the files, the network,
  the numbers with fractions as they come from the services, and the terminal.
