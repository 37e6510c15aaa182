# malgrat_grid

Hour-by-hour simulation of the medium-voltage distribution grid of Malgrat de
Mar: solar generation, batteries and line losses at each bus.

- `src/` is the verified library: the kinds of bus and their names, the
  battery schedule of a bus (night grid charging, discharge window) and the
  decision of what a battery does with the local balance in an hour, the grid
  topology (which line and which transformer supply a bus), the month whose
  irradiation profile drives a run and the length of a run.
- `app/` is the program: it reads the PVGIS irradiation profile, holds the
  floating-point quantities (demand, generation, stored energy, losses),
  runs the day through the library's decisions, and prints and writes the
  hourly reports.
- `tests/` runs the library on concrete values.
