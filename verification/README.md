# weather_report

A five-day weather report for Mysore in Kannada: the forecast is read from an
Open-Meteo response, translated with a built-in dictionary, written as an
editable HTML table, rendered into Instagram (9:16) and YouTube (16:9) poster
pages, narrated, and merged into videos.

- `src/` is the verified library (Verus): reading the forecast document
  (`fetch`, `json`, `calendar`), translation (`translate`), the HTML documents
  and poster sizing (`html_render`), narration (`tts`, `report`), and the
  checks on the screenshot and the merged video (`image_gen`, `video`), on
  top of verified text utilities (`text`).
- `app/` is the program around it: HTTP, files, the headless browser, the
  speech service, ffmpeg, and the floating-point font sizing.
- `tests/` exercises the library on concrete inputs.
